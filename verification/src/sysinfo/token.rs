//! The pieces a system-information format string is made of.
use vstd::prelude::*;

use crate::decimal::{all_digits, is_digit};
use crate::text::{chars_of, str_eq, string_of};

verus! {

/// A value the system-information module can show.
#[derive(Debug, Clone, Copy, PartialEq, Eq, Structural)]
pub enum TokenType {
    CpuFrequency,
    CpuPercent,
    MemoryFree,
    MemoryAvailable,
    MemoryTotal,
    MemoryUsed,
    MemoryPercent,
    SwapFree,
    SwapTotal,
    SwapUsed,
    SwapPercent,
    TempC,
    TempF,
    DiskFree,
    DiskTotal,
    DiskUsed,
    DiskPercent,
    DiskRead,
    DiskWrite,
    NetDown,
    NetUp,
    LoadAverage1,
    LoadAverage5,
    LoadAverage15,
    Uptime,
}

/// How the values of a token that has several sources are combined.
#[derive(Debug, Clone, PartialEq, Eq)]
pub enum Function {
    /// The value is used as it is.
    NoFunction,
    Sum,
    Min,
    Max,
    Mean,
    Name(String),
}

/// The unit prefix a numeric value is shown in.
#[derive(Debug, Clone, Copy, PartialEq, Eq, Structural)]
pub enum Prefix {
    /// The value is shown in its base unit.
    NoPrefix,
    Kilo,
    Mega,
    Giga,
    Tera,
    Peta,
    Kibi,
    Mebi,
    Gibi,
    Tebi,
    Pebi,
    KiloBit,
    MegaBit,
    GigaBit,
}

/// Where a value sits inside its padded width.
#[derive(Debug, Clone, Copy, Default, PartialEq, Eq, Structural)]
pub enum Alignment {
    #[default]
    Left,
    Center,
    Right,
}

/// Width, fill, alignment and precision of a rendered value.
#[derive(Debug, Clone, Copy, PartialEq, Eq, Structural)]
pub struct Formatting {
    pub width: usize,
    pub fill: char,
    pub align: Alignment,
    pub precision: usize,
}

/// One placeholder of a format string.
#[derive(Debug, Clone)]
pub struct Token {
    pub token: TokenType,
    pub function: Function,
    pub prefix: Prefix,
    pub formatting: Formatting,
}

/// A format string is a sequence of literal text and placeholders.
#[derive(Debug, Clone)]
pub enum Part {
    Static(String),
    Token(Token),
}

/// Why a format string could not be read.
#[derive(Debug, Clone, PartialEq, Eq)]
pub enum FormatError {
    /// The placeholder names no known value.
    UnknownToken(String),
    /// The text is no unit prefix.
    InvalidPrefix(String),
    /// The character is none of `<`, `^`, `>`.
    UnknownAlignment(char),
    /// The width digits do not fit a `usize`.
    InvalidWidth(String),
    /// The precision is not a number that fits a `usize`.
    InvalidPrecision(String),
}

/// `Function` with its name as characters.
pub enum FunctionView {
    NoFunction,
    Sum,
    Min,
    Max,
    Mean,
    Name(Seq<char>),
}

/// `Token` with its function as a `FunctionView`.
pub struct TokenView {
    pub token: TokenType,
    pub function: FunctionView,
    pub prefix: Prefix,
    pub formatting: Formatting,
}

/// `Part` with its text as characters.
pub enum PartView {
    Static(Seq<char>),
    Token(TokenView),
}

/// `FormatError` with its text as characters.
pub enum FormatErrorView {
    UnknownToken(Seq<char>),
    InvalidPrefix(Seq<char>),
    UnknownAlignment(char),
    InvalidWidth(Seq<char>),
    InvalidPrecision(Seq<char>),
}

impl View for Function {
    type V = FunctionView;

    open spec fn view(&self) -> FunctionView {
        match self {
            Function::NoFunction => FunctionView::NoFunction,
            Function::Sum => FunctionView::Sum,
            Function::Min => FunctionView::Min,
            Function::Max => FunctionView::Max,
            Function::Mean => FunctionView::Mean,
            Function::Name(n) => FunctionView::Name(n@),
        }
    }
}

impl View for Token {
    type V = TokenView;

    open spec fn view(&self) -> TokenView {
        TokenView {
            token: self.token,
            function: self.function@,
            prefix: self.prefix,
            formatting: self.formatting,
        }
    }
}

impl View for Part {
    type V = PartView;

    open spec fn view(&self) -> PartView {
        match self {
            Part::Static(s) => PartView::Static(s@),
            Part::Token(t) => PartView::Token(t@),
        }
    }
}

impl View for FormatError {
    type V = FormatErrorView;

    open spec fn view(&self) -> FormatErrorView {
        match self {
            FormatError::UnknownToken(s) => FormatErrorView::UnknownToken(s@),
            FormatError::InvalidPrefix(s) => FormatErrorView::InvalidPrefix(s@),
            FormatError::UnknownAlignment(c) => FormatErrorView::UnknownAlignment(*c),
            FormatError::InvalidWidth(s) => FormatErrorView::InvalidWidth(s@),
            FormatError::InvalidPrecision(s) => FormatErrorView::InvalidPrecision(s@),
        }
    }
}

/// The value a placeholder name stands for.
pub open spec fn token_type_of_name(s: Seq<char>) -> Option<TokenType> {
    if s == "cpu_frequency"@ { Some(TokenType::CpuFrequency) }
    else if s == "cpu_percent"@ { Some(TokenType::CpuPercent) }
    else if s == "memory_free"@ { Some(TokenType::MemoryFree) }
    else if s == "memory_available"@ { Some(TokenType::MemoryAvailable) }
    else if s == "memory_total"@ { Some(TokenType::MemoryTotal) }
    else if s == "memory_used"@ { Some(TokenType::MemoryUsed) }
    else if s == "memory_percent"@ { Some(TokenType::MemoryPercent) }
    else if s == "swap_free"@ { Some(TokenType::SwapFree) }
    else if s == "swap_total"@ { Some(TokenType::SwapTotal) }
    else if s == "swap_used"@ { Some(TokenType::SwapUsed) }
    else if s == "swap_percent"@ { Some(TokenType::SwapPercent) }
    else if s == "temp_c"@ { Some(TokenType::TempC) }
    else if s == "temp_f"@ { Some(TokenType::TempF) }
    else if s == "disk_free"@ { Some(TokenType::DiskFree) }
    else if s == "disk_total"@ { Some(TokenType::DiskTotal) }
    else if s == "disk_used"@ { Some(TokenType::DiskUsed) }
    else if s == "disk_percent"@ { Some(TokenType::DiskPercent) }
    else if s == "disk_read"@ { Some(TokenType::DiskRead) }
    else if s == "disk_write"@ { Some(TokenType::DiskWrite) }
    else if s == "net_down"@ { Some(TokenType::NetDown) }
    else if s == "net_up"@ { Some(TokenType::NetUp) }
    else if s == "load_average_1"@ { Some(TokenType::LoadAverage1) }
    else if s == "load_average_5"@ { Some(TokenType::LoadAverage5) }
    else if s == "load_average_15"@ { Some(TokenType::LoadAverage15) }
    else if s == "uptime"@ { Some(TokenType::Uptime) }
    else { None }
}

/// The prefix a prefix name stands for.
pub open spec fn prefix_of_name(s: Seq<char>) -> Option<Prefix> {
    if s == "k"@ { Some(Prefix::Kilo) }
    else if s == "M"@ { Some(Prefix::Mega) }
    else if s == "G"@ { Some(Prefix::Giga) }
    else if s == "T"@ { Some(Prefix::Tera) }
    else if s == "P"@ { Some(Prefix::Peta) }
    else if s == "ki"@ { Some(Prefix::Kibi) }
    else if s == "Mi"@ { Some(Prefix::Mebi) }
    else if s == "Gi"@ { Some(Prefix::Gibi) }
    else if s == "Ti"@ { Some(Prefix::Tebi) }
    else if s == "Pi"@ { Some(Prefix::Pebi) }
    else if s == "kb"@ { Some(Prefix::KiloBit) }
    else if s == "Mb"@ { Some(Prefix::MegaBit) }
    else if s == "Gb"@ { Some(Prefix::GigaBit) }
    else { None }
}

/// The function a function name stands for: the four aggregate names, or
/// any other non-empty text as the name of one source.
pub open spec fn function_of_name(s: Seq<char>) -> Option<FunctionView> {
    if s == "sum"@ { Some(FunctionView::Sum) }
    else if s == "min"@ { Some(FunctionView::Min) }
    else if s == "max"@ { Some(FunctionView::Max) }
    else if s == "mean"@ { Some(FunctionView::Mean) }
    else if s.len() == 0 { None }
    else { Some(FunctionView::Name(s)) }
}

/// The alignment an alignment character stands for.
pub open spec fn alignment_of_char(c: char) -> Option<Alignment> {
    if c == '<' { Some(Alignment::Left) }
    else if c == '^' { Some(Alignment::Center) }
    else if c == '>' { Some(Alignment::Right) }
    else { None }
}

/// How a token's sources are combined when the format names no function.
pub open spec fn default_function(t: TokenType) -> FunctionView {
    match t {
        TokenType::CpuFrequency | TokenType::CpuPercent | TokenType::TempC
        | TokenType::DiskPercent => FunctionView::Mean,
        TokenType::DiskFree | TokenType::DiskTotal | TokenType::DiskUsed | TokenType::DiskRead
        | TokenType::DiskWrite | TokenType::NetDown | TokenType::NetUp => FunctionView::Sum,
        _ => FunctionView::NoFunction,
    }
}

/// The prefix a token is shown in when the format names none.
pub open spec fn default_prefix(t: TokenType) -> Prefix {
    match t {
        TokenType::CpuFrequency | TokenType::MemoryFree | TokenType::MemoryAvailable
        | TokenType::MemoryTotal | TokenType::MemoryUsed | TokenType::SwapFree
        | TokenType::SwapTotal | TokenType::SwapUsed | TokenType::DiskFree
        | TokenType::DiskTotal | TokenType::DiskUsed => Prefix::Giga,
        TokenType::DiskRead | TokenType::DiskWrite => Prefix::Mega,
        TokenType::NetDown | TokenType::NetUp => Prefix::MegaBit,
        _ => Prefix::NoPrefix,
    }
}

/// The formatting a token is shown with when the format gives none.
pub open spec fn default_formatting(t: TokenType) -> Formatting {
    match t {
        TokenType::CpuFrequency | TokenType::LoadAverage1 | TokenType::LoadAverage5
        | TokenType::LoadAverage15 => Formatting {
            width: 0,
            fill: '0',
            align: Alignment::Left,
            precision: 2,
        },
        TokenType::CpuPercent => Formatting {
            width: 2,
            fill: '0',
            align: Alignment::Left,
            precision: 0,
        },
        TokenType::MemoryFree | TokenType::MemoryAvailable | TokenType::MemoryTotal
        | TokenType::MemoryUsed | TokenType::MemoryPercent | TokenType::SwapFree
        | TokenType::SwapTotal | TokenType::SwapUsed | TokenType::SwapPercent => Formatting {
            width: 4,
            fill: '0',
            align: Alignment::Left,
            precision: 1,
        },
        _ => Formatting { width: 0, fill: '0', align: Alignment::Left, precision: 0 },
    }
}

impl TokenType {
    /// Reads a placeholder name such as `cpu_frequency`.
    pub fn from_str(s: &str) -> (r: Result<TokenType, FormatError>)
        ensures
            r matches Ok(t) ==> token_type_of_name(s@) == Some(t),
            r matches Err(e) ==> token_type_of_name(s@) is None && e@ == FormatErrorView::UnknownToken(s@),
    {
        if str_eq(s, "cpu_frequency") { Ok(TokenType::CpuFrequency) }
        else if str_eq(s, "cpu_percent") { Ok(TokenType::CpuPercent) }
        else if str_eq(s, "memory_free") { Ok(TokenType::MemoryFree) }
        else if str_eq(s, "memory_available") { Ok(TokenType::MemoryAvailable) }
        else if str_eq(s, "memory_total") { Ok(TokenType::MemoryTotal) }
        else if str_eq(s, "memory_used") { Ok(TokenType::MemoryUsed) }
        else if str_eq(s, "memory_percent") { Ok(TokenType::MemoryPercent) }
        else if str_eq(s, "swap_free") { Ok(TokenType::SwapFree) }
        else if str_eq(s, "swap_total") { Ok(TokenType::SwapTotal) }
        else if str_eq(s, "swap_used") { Ok(TokenType::SwapUsed) }
        else if str_eq(s, "swap_percent") { Ok(TokenType::SwapPercent) }
        else if str_eq(s, "temp_c") { Ok(TokenType::TempC) }
        else if str_eq(s, "temp_f") { Ok(TokenType::TempF) }
        else if str_eq(s, "disk_free") { Ok(TokenType::DiskFree) }
        else if str_eq(s, "disk_total") { Ok(TokenType::DiskTotal) }
        else if str_eq(s, "disk_used") { Ok(TokenType::DiskUsed) }
        else if str_eq(s, "disk_percent") { Ok(TokenType::DiskPercent) }
        else if str_eq(s, "disk_read") { Ok(TokenType::DiskRead) }
        else if str_eq(s, "disk_write") { Ok(TokenType::DiskWrite) }
        else if str_eq(s, "net_down") { Ok(TokenType::NetDown) }
        else if str_eq(s, "net_up") { Ok(TokenType::NetUp) }
        else if str_eq(s, "load_average_1") { Ok(TokenType::LoadAverage1) }
        else if str_eq(s, "load_average_5") { Ok(TokenType::LoadAverage5) }
        else if str_eq(s, "load_average_15") { Ok(TokenType::LoadAverage15) }
        else if str_eq(s, "uptime") { Ok(TokenType::Uptime) }
        else { Err(FormatError::UnknownToken(crate::text::owned(s))) }
    }
}

impl Prefix {
    /// Reads a unit prefix such as `G`, `Mi` or `kb`.
    pub fn from_str(s: &str) -> (r: Result<Prefix, FormatError>)
        ensures
            r matches Ok(p) ==> prefix_of_name(s@) == Some(p),
            r matches Err(e) ==> prefix_of_name(s@) is None && e@ == FormatErrorView::InvalidPrefix(s@),
    {
        if str_eq(s, "k") { Ok(Prefix::Kilo) }
        else if str_eq(s, "M") { Ok(Prefix::Mega) }
        else if str_eq(s, "G") { Ok(Prefix::Giga) }
        else if str_eq(s, "T") { Ok(Prefix::Tera) }
        else if str_eq(s, "P") { Ok(Prefix::Peta) }
        else if str_eq(s, "ki") { Ok(Prefix::Kibi) }
        else if str_eq(s, "Mi") { Ok(Prefix::Mebi) }
        else if str_eq(s, "Gi") { Ok(Prefix::Gibi) }
        else if str_eq(s, "Ti") { Ok(Prefix::Tebi) }
        else if str_eq(s, "Pi") { Ok(Prefix::Pebi) }
        else if str_eq(s, "kb") { Ok(Prefix::KiloBit) }
        else if str_eq(s, "Mb") { Ok(Prefix::MegaBit) }
        else if str_eq(s, "Gb") { Ok(Prefix::GigaBit) }
        else { Err(FormatError::InvalidPrefix(crate::text::owned(s))) }
    }

    /// The prefix a token is shown in when the format names none.
    pub fn default_for(token_type: TokenType) -> (r: Prefix)
        ensures
            r == default_prefix(token_type),
    {
        match token_type {
            TokenType::CpuFrequency | TokenType::MemoryFree | TokenType::MemoryAvailable
            | TokenType::MemoryTotal | TokenType::MemoryUsed | TokenType::SwapFree
            | TokenType::SwapTotal | TokenType::SwapUsed | TokenType::DiskFree
            | TokenType::DiskTotal | TokenType::DiskUsed => Prefix::Giga,
            TokenType::DiskRead | TokenType::DiskWrite => Prefix::Mega,
            TokenType::NetDown | TokenType::NetUp => Prefix::MegaBit,
            _ => Prefix::NoPrefix,
        }
    }
}

impl Function {
    /// Reads a function name: `sum`, `min`, `max`, `mean`, or the name of
    /// one source.  Empty text names no function.
    pub fn from_str(s: &str) -> (r: Result<Function, ()>)
        ensures
            r matches Ok(f) ==> function_of_name(s@) == Some(f@),
            r is Err ==> function_of_name(s@) is None,
    {
        proof {
            reveal_strlit("");
        }
        if str_eq(s, "sum") { Ok(Function::Sum) }
        else if str_eq(s, "min") { Ok(Function::Min) }
        else if str_eq(s, "max") { Ok(Function::Max) }
        else if str_eq(s, "mean") { Ok(Function::Mean) }
        else if str_eq(s, "") { Err(()) }
        else {
            proof {
                if s@.len() == 0 {
                    assert(s@ =~= ""@);
                }
            }
            Ok(Function::Name(crate::text::owned(s)))
        }
    }

    /// How a token's sources are combined when the format names no function.
    pub fn default_for(token_type: TokenType) -> (r: Function)
        ensures
            r@ == default_function(token_type),
    {
        match token_type {
            TokenType::CpuFrequency | TokenType::CpuPercent | TokenType::TempC
            | TokenType::DiskPercent => Function::Mean,
            TokenType::DiskFree | TokenType::DiskTotal | TokenType::DiskUsed
            | TokenType::DiskRead | TokenType::DiskWrite | TokenType::NetDown
            | TokenType::NetUp => Function::Sum,
            _ => Function::NoFunction,
        }
    }
}

impl Alignment {
    /// Reads an alignment character: `<`, `^` or `>`.
    pub fn try_from(value: char) -> (r: Result<Alignment, FormatError>)
        ensures
            r matches Ok(a) ==> alignment_of_char(value) == Some(a),
            r matches Err(e) ==> alignment_of_char(value) is None && e@ == FormatErrorView::UnknownAlignment(value),
    {
        if value == '<' {
            Ok(Alignment::Left)
        } else if value == '^' {
            Ok(Alignment::Center)
        } else if value == '>' {
            Ok(Alignment::Right)
        } else {
            Err(FormatError::UnknownAlignment(value))
        }
    }
}

impl Formatting {
    /// The formatting a token is shown with when the format gives none.
    pub fn default_for(token_type: TokenType) -> (r: Formatting)
        ensures
            r == default_formatting(token_type),
    {
        match token_type {
            TokenType::CpuFrequency | TokenType::LoadAverage1 | TokenType::LoadAverage5
            | TokenType::LoadAverage15 => Formatting {
                width: 0,
                fill: '0',
                align: Alignment::Left,
                precision: 2,
            },
            TokenType::CpuPercent => Formatting {
                width: 2,
                fill: '0',
                align: Alignment::Left,
                precision: 0,
            },
            TokenType::MemoryFree | TokenType::MemoryAvailable | TokenType::MemoryTotal
            | TokenType::MemoryUsed | TokenType::MemoryPercent | TokenType::SwapFree
            | TokenType::SwapTotal | TokenType::SwapUsed | TokenType::SwapPercent => Formatting {
                width: 4,
                fill: '0',
                align: Alignment::Left,
                precision: 1,
            },
            _ => Formatting { width: 0, fill: '0', align: Alignment::Left, precision: 0 },
        }
    }
}

/// The message `str::parse` gives for a text that is no unsigned integer
/// of the target size: empty, a character that is no digit (after an
/// optional `+`), or else a value too large.
pub open spec fn int_error_message(s: Seq<char>) -> Seq<char> {
    let digits = if s.len() > 0 && s[0] == '+' { s.drop_first() } else { s };
    if s.len() == 0 {
        "cannot parse integer from empty string"@
    } else if digits.len() == 0 || !all_digits(digits) {
        "invalid digit found in string"@
    } else {
        "number too large to fit in target type"@
    }
}

/// The message of a format error.
pub open spec fn error_message(e: FormatErrorView) -> Seq<char> {
    match e {
        FormatErrorView::UnknownToken(t) => "invalid token type: "@ + t,
        FormatErrorView::InvalidPrefix(t) => "invalid prefix: "@ + t,
        FormatErrorView::UnknownAlignment(c) => "Unknown alignment: "@ + seq![c],
        FormatErrorView::InvalidWidth(t) => int_error_message(t),
        FormatErrorView::InvalidPrecision(t) => int_error_message(t),
    }
}

fn int_error_text(s: &String) -> (r: String)
    ensures
        r@ == int_error_message(s@),
{
    let v = chars_of(s.as_str());
    if v.len() == 0 {
        return string_of(&chars_of("cannot parse integer from empty string"));
    }
    let start: usize = if v[0] == '+' { 1 } else { 0 };
    let ghost digits = if v@.len() > 0 && v@[0] == '+' { v@.drop_first() } else { v@ };
    assert(digits =~= v@.skip(start as int));
    let mut ok = start < v.len();
    let mut i = start;
    while i < v.len()
        invariant
            start <= i <= v.len(),
            v@ == s@,
            start == (if v@.len() > 0 && v@[0] == '+' { 1int } else { 0int }),
            ok ==> start < v.len(),
            ok ==> forall|k: int| start <= k < i ==> is_digit(#[trigger] v@[k]),
            !ok ==> (start == v.len() || exists|k: int| start <= k < i && !is_digit(#[trigger] v@[k])),
        decreases v.len() - i,
    {
        if !(v[i] >= '0' && v[i] <= '9') {
            ok = false;
        }
        i = i + 1;
    }
    if ok {
        assert(all_digits(digits)) by {
            assert forall|k: int| 0 <= k < digits.len() implies is_digit(#[trigger] digits[k]) by {
                assert(digits[k] == v@[k + start]);
            }
        }
        string_of(&chars_of("number too large to fit in target type"))
    } else {
        proof {
            if start < v.len() {
                let k = choose|k: int| start <= k < v.len() && !is_digit(#[trigger] v@[k]);
                assert(digits[k - start] == v@[k]);
            }
        }
        string_of(&chars_of("invalid digit found in string"))
    }
}

fn prefixed_text(prefix: &str, t: &String) -> (r: String)
    ensures
        r@ == prefix@ + t@,
{
    let mut out = chars_of(prefix);
    let v = chars_of(t.as_str());
    crate::text::append_chars(&mut out, &v);
    string_of(&out)
}

impl FormatError {
    /// The error's message, as the bar logs it.
    pub fn message(&self) -> (r: String)
        ensures
            r@ == error_message(self@),
    {
        match self {
            FormatError::UnknownToken(t) => prefixed_text("invalid token type: ", t),
            FormatError::InvalidPrefix(t) => prefixed_text("invalid prefix: ", t),
            FormatError::UnknownAlignment(c) => {
                let mut out = chars_of("Unknown alignment: ");
                out.push(*c);
                string_of(&out)
            },
            FormatError::InvalidWidth(t) => int_error_text(t),
            FormatError::InvalidPrecision(t) => int_error_text(t),
        }
    }
}

} // verus!
