use vstd::prelude::*;
use vstd::string::StringExecFns;

verus! {

/// Errors reported while running inference.
#[derive(Debug, Clone)]
pub enum Qwen3TtsInferenceError {
    /// The caller handed in data that does not have the expected shape or content.
    InvalidInput { message: String },
    /// A tensor could not be read back from the device.
    TensorRead { message: String },
}

impl Qwen3TtsInferenceError {
    /// The human readable message carried by the error.
    pub fn to_string(&self) -> (s: String)
        ensures
            s@ == self.message_view(),
    {
        match self {
            Qwen3TtsInferenceError::InvalidInput { message } => message.clone(),
            Qwen3TtsInferenceError::TensorRead { message } => message.clone(),
        }
    }

    pub open spec fn message_view(&self) -> Seq<char> {
        match self {
            Qwen3TtsInferenceError::InvalidInput { message } => message@,
            Qwen3TtsInferenceError::TensorRead { message } => message@,
        }
    }

    pub open spec fn is_invalid_input_with(&self, text: Seq<char>) -> bool {
        self matches Qwen3TtsInferenceError::InvalidInput { message } && message@ == text
    }
}

/// Errors reported while loading a model package.
#[derive(Debug, Clone)]
pub enum Qwen3TtsLoadError {
    /// The requested backend was not compiled into this build.
    UnavailableBackend { backend: String },
    /// The model directory lacks something the loader needs.
    InvalidModelDir { message: String },
}

impl Qwen3TtsLoadError {
    /// The human readable message carried by the error.
    pub fn to_string(&self) -> (s: String)
        ensures
            s@ == self.message_view(),
    {
        match self {
            Qwen3TtsLoadError::UnavailableBackend { backend } => {
                let mut s = String::from_str("backend is not available in this build: ");
                s.append(backend.as_str());
                s
            },
            Qwen3TtsLoadError::InvalidModelDir { message } => message.clone(),
        }
    }

    pub open spec fn message_view(&self) -> Seq<char> {
        match self {
            Qwen3TtsLoadError::UnavailableBackend { backend } => "backend is not available in this build: "@
                + backend@,
            Qwen3TtsLoadError::InvalidModelDir { message } => message@,
        }
    }
}

/// The character of a decimal digit.
pub open spec fn digit_char(d: nat) -> char {
    if d == 0 { '0' }
    else if d == 1 { '1' }
    else if d == 2 { '2' }
    else if d == 3 { '3' }
    else if d == 4 { '4' }
    else if d == 5 { '5' }
    else if d == 6 { '6' }
    else if d == 7 { '7' }
    else if d == 8 { '8' }
    else { '9' }
}

/// The decimal rendering of a natural number, without leading zeros.
pub open spec fn decimal(n: nat) -> Seq<char>
    decreases n,
{
    if n < 10 {
        seq![digit_char(n)]
    } else {
        decimal(n / 10).push(digit_char(n % 10))
    }
}

/// The decimal rendering of a signed integer, with a leading `-` when negative.
pub open spec fn signed_decimal(n: int) -> Seq<char> {
    if n < 0 {
        seq!['-'] + decimal((-n) as nat)
    } else {
        decimal(n as nat)
    }
}

fn digit_str(d: u64) -> (s: &'static str)
    requires
        d < 10,
    ensures
        s@ == seq![digit_char(d as nat)],
{
    proof {
        reveal_strlit("0");
        reveal_strlit("1");
        reveal_strlit("2");
        reveal_strlit("3");
        reveal_strlit("4");
        reveal_strlit("5");
        reveal_strlit("6");
        reveal_strlit("7");
        reveal_strlit("8");
        reveal_strlit("9");
    }
    if d == 0 {
        "0"
    } else if d == 1 {
        "1"
    } else if d == 2 {
        "2"
    } else if d == 3 {
        "3"
    } else if d == 4 {
        "4"
    } else if d == 5 {
        "5"
    } else if d == 6 {
        "6"
    } else if d == 7 {
        "7"
    } else if d == 8 {
        "8"
    } else {
        "9"
    }
}

/// Appends the decimal rendering of `n`.
pub fn push_decimal(s: &mut String, n: u64)
    ensures
        final(s)@ == old(s)@ + decimal(n as nat),
    decreases n,
{
    if n >= 10 {
        push_decimal(s, n / 10);
    }
    let d = digit_str(n % 10);
    s.append(d);
    proof {
        if n >= 10 {
            assert(decimal(n as nat) == decimal((n / 10) as nat).push(digit_char((n % 10) as nat)));
        }
    }
    assert(final(s)@ =~= old(s)@ + decimal(n as nat));
}

/// Appends the signed decimal rendering of `n`.
pub fn push_signed_decimal(s: &mut String, n: i64)
    ensures
        final(s)@ == old(s)@ + signed_decimal(n as int),
{
    if n < 0 {
        proof { reveal_strlit("-"); }
        s.append("-");
        let magnitude: u64 = (0i128 - (n as i128)) as u64;
        push_decimal(s, magnitude);
        assert(final(s)@ =~= old(s)@ + signed_decimal(n as int));
    } else {
        push_decimal(s, n as u64);
    }
}

} // verus!
