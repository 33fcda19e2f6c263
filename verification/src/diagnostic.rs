//! The error taxonomy of the binding core, and the names of the four driver
//! entry points.

use vstd::prelude::*;

verus! {

/// The four entry points that the driver module must export.
#[derive(Clone, Copy, PartialEq, Eq, Structural, Debug)]
pub enum Symbol {
    /// `InitializeKDMAPIStream`: begin a session; `false` means failure.
    InitializeStream,
    /// `IsKDMAPIAvailable`: `true` iff the driver is enabled for use.
    IsAvailable,
    /// `SendDirectData`: forward one packed event word.
    SendDirectData,
    /// `TerminateKDMAPIStream`: end the session.
    TerminateStream,
}

impl Symbol {
    /// The exported name of this entry point, as the driver module spells it.
    pub open spec fn name_spec(self) -> Seq<char> {
        match self {
            Symbol::InitializeStream => "InitializeKDMAPIStream"@,
            Symbol::IsAvailable => "IsKDMAPIAvailable"@,
            Symbol::SendDirectData => "SendDirectData"@,
            Symbol::TerminateStream => "TerminateKDMAPIStream"@,
        }
    }

    /// The exported name of this entry point, for the host's symbol lookup.
    pub fn name(&self) -> (r: &'static str)
        ensures
            r@ == self.name_spec(),
    {
        match self {
            Symbol::InitializeStream => "InitializeKDMAPIStream",
            Symbol::IsAvailable => "IsKDMAPIAvailable",
            Symbol::SendDirectData => "SendDirectData",
            Symbol::TerminateStream => "TerminateKDMAPIStream",
        }
    }
}

/// The character for one hexadecimal digit, lower case.
pub open spec fn hex_digit_char(d: nat) -> char {
    if d == 0 {
        '0'
    } else if d == 1 {
        '1'
    } else if d == 2 {
        '2'
    } else if d == 3 {
        '3'
    } else if d == 4 {
        '4'
    } else if d == 5 {
        '5'
    } else if d == 6 {
        '6'
    } else if d == 7 {
        '7'
    } else if d == 8 {
        '8'
    } else if d == 9 {
        '9'
    } else if d == 10 {
        'a'
    } else if d == 11 {
        'b'
    } else if d == 12 {
        'c'
    } else if d == 13 {
        'd'
    } else if d == 14 {
        'e'
    } else {
        'f'
    }
}

/// The lower-case hexadecimal rendering of `n`, without leading zeros
/// (`0` renders as `"0"`).
pub open spec fn hex_rep(n: nat) -> Seq<char>
    decreases n,
{
    if n < 16 {
        seq![hex_digit_char(n)]
    } else {
        hex_rep(n / 16) + seq![hex_digit_char(n % 16)]
    }
}

/// One hexadecimal digit as text.
fn hex_digit(d: u32) -> (r: &'static str)
    requires
        d < 16,
    ensures
        r@ == seq![hex_digit_char(d as nat)],
{
    let r: &'static str = match d {
        0 => "0",
        1 => "1",
        2 => "2",
        3 => "3",
        4 => "4",
        5 => "5",
        6 => "6",
        7 => "7",
        8 => "8",
        9 => "9",
        10 => "a",
        11 => "b",
        12 => "c",
        13 => "d",
        14 => "e",
        _ => "f",
    };
    proof {
        reveal_strlit("0");
        reveal_strlit("1");
        reveal_strlit("2");
        reveal_strlit("3");
        reveal_strlit("4");
        reveal_strlit("5");
        reveal_strlit("6");
        reveal_strlit("7");
        reveal_strlit("8");
        reveal_strlit("9");
        reveal_strlit("a");
        reveal_strlit("b");
        reveal_strlit("c");
        reveal_strlit("d");
        reveal_strlit("e");
        reveal_strlit("f");
        assert(r@ =~= seq![hex_digit_char(d as nat)]);
    }
    r
}

/// `code` in lower-case hexadecimal, as the platform's error codes are
/// conventionally written.
pub fn hex_string(code: u32) -> (r: String)
    ensures
        r@ == hex_rep(code as nat),
    decreases code,
{
    if code < 16 {
        String::from_str(hex_digit(code))
    } else {
        let mut r = hex_string(code / 16);
        r.append(hex_digit(code % 16));
        r
    }
}

/// Why a lifecycle operation failed. Every failure of `start` is terminal to
/// the call and carries enough context (symbol name, platform error code) to
/// explain itself; no operation retries on its own.
#[derive(Clone, Copy, PartialEq, Eq, Structural, Debug)]
pub enum Diagnostic {
    /// `start` was called while a session was already active.
    AlreadyInitialized,
    /// Neither the bare-name load nor the fallback-path load found the driver
    /// module; `code` is the platform's last-error code of the second attempt.
    ModuleLoadFailed { code: u32 },
    /// One of the four entry points could not be resolved from the loaded
    /// module; `code` is the platform's last-error code of that lookup.
    SymbolResolutionFailed { symbol: Symbol, code: u32 },
    /// The driver's stream initialization reported failure.
    DriverInitializationFailed,
    /// The driver is installed and its stream initialized, but it reports
    /// itself administratively disabled. Known limitation: the stream was
    /// already told to initialize, and the driver may be partially started
    /// on its own side; the binding does not attempt to terminate it in
    /// this branch.
    DriverDisabled,
}

impl Diagnostic {
    /// The text of this diagnostic: the failing symbol by its exported name,
    /// and the platform error code in lower-case hexadecimal.
    pub open spec fn message_spec(self) -> Seq<char> {
        match self {
            Diagnostic::AlreadyInitialized => "Already initialized"@,
            Diagnostic::ModuleLoadFailed { code } => "Failed to load OmniMIDI.dll! GLE: "@ + hex_rep(
                code as nat,
            ),
            Diagnostic::SymbolResolutionFailed { symbol, code } => "Failed to find function "@
                + symbol.name_spec() + "! GLE: "@ + hex_rep(code as nat),
            Diagnostic::DriverInitializationFailed => "KDMAPI failed to initialize."@,
            Diagnostic::DriverDisabled =>
                "KDMAPI was able to be initialized, but is currently disabled in settings."@,
        }
    }

    /// Render this diagnostic as text.
    pub fn message(&self) -> (r: String)
        ensures
            r@ == self.message_spec(),
    {
        match *self {
            Diagnostic::AlreadyInitialized => String::from_str("Already initialized"),
            Diagnostic::ModuleLoadFailed { code } => {
                let mut r = String::from_str("Failed to load OmniMIDI.dll! GLE: ");
                let hex = hex_string(code);
                r.append(hex.as_str());
                r
            }
            Diagnostic::SymbolResolutionFailed { symbol, code } => {
                let mut r = String::from_str("Failed to find function ");
                r.append(symbol.name());
                r.append("! GLE: ");
                let hex = hex_string(code);
                r.append(hex.as_str());
                r
            }
            Diagnostic::DriverInitializationFailed => String::from_str("KDMAPI failed to initialize."),
            Diagnostic::DriverDisabled => String::from_str(
                "KDMAPI was able to be initialized, but is currently disabled in settings.",
            ),
        }
    }
}

} // verus!
