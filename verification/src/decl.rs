//! The rules of an IOCTL declaration: the decisions that the `define_ioctl!`
//! macro makes when it turns
//!
//! ```text
//! define_ioctl!(NAME, device_type, function, Input => Output
//!               [, method = Buffered|InDirect|OutDirect|Neither]
//!               [, access = Any|Read|Write|ReadWrite] [,])
//! ```
//!
//! into an [`IoControlCode`] constant and two type-alias names. The option
//! list after `Input => Output` is read from [`DeclToken`]s; `method`
//! defaults to `Buffered` and `access` to `Any`; the aliases are the constant's
//! name in PascalCase followed by `Input` / `Output`.

use vstd::prelude::*;
use vstd::string::*;

use crate::ioctl::{ctl_code, IoControlCode, RequiredAccess, TransferMethod};

verus! {

/// A token of a declaration's input. An expression or a type that the macro
/// front end has already read as one item (a literal such as `0x8000u16`, a
/// path, a generic type) is one `Ident` or `Other` token.
#[derive(Debug)]
pub enum DeclToken {
    /// `,`
    Comma,
    /// `=`
    Eq,
    /// `=>`
    FatArrow,
    /// An identifier (not a keyword), with its text.
    Ident(String),
    /// Any other token or item, with its text.
    Other(String),
}

/// Why a declaration is rejected. `at` is the index of the token the error
/// concerns (the input's length when the input ended too early).
#[derive(Debug)]
pub enum DeclError {
    /// An identifier was expected (the constant's name, a key after `,`, or a
    /// value after `=`).
    ExpectedIdent { at: usize },
    /// `,` was expected between the leading arguments.
    ExpectedComma { at: usize },
    /// An expression (the device type or the function code) was expected.
    ExpectedExpression { at: usize },
    /// A type (the input or output buffer type) was expected.
    ExpectedType { at: usize },
    /// `=>` was expected between the input and output types.
    ExpectedFatArrow { at: usize },
    /// `=` was expected after a key.
    ExpectedEq { at: usize },
    /// Input remained that is not a `,`-separated option.
    UnexpectedToken { at: usize },
    /// `method` was given twice; `at` is the second key.
    DuplicateMethod { at: usize },
    /// `access` was given twice; `at` is the second key.
    DuplicateAccess { at: usize },
    /// A key other than `method` or `access`.
    UnknownKey { key: String, at: usize },
    /// A `method` value other than `Buffered`, `InDirect`, `OutDirect`, `Neither`.
    UnknownMethod(String),
    /// An `access` value other than `Any`, `Read`, `Write`, `ReadWrite`.
    UnknownAccess(String),
}

/// [`DeclError`] with its texts as character sequences.
pub enum DeclErrorModel {
    ExpectedIdent { at: int },
    ExpectedComma { at: int },
    ExpectedExpression { at: int },
    ExpectedType { at: int },
    ExpectedFatArrow { at: int },
    ExpectedEq { at: int },
    UnexpectedToken { at: int },
    DuplicateMethod { at: int },
    DuplicateAccess { at: int },
    UnknownKey { key: Seq<char>, at: int },
    UnknownMethod(Seq<char>),
    UnknownAccess(Seq<char>),
}

impl View for DeclError {
    type V = DeclErrorModel;

    open spec fn view(&self) -> DeclErrorModel {
        match self {
            DeclError::ExpectedIdent { at } => DeclErrorModel::ExpectedIdent { at: *at as int },
            DeclError::ExpectedComma { at } => DeclErrorModel::ExpectedComma { at: *at as int },
            DeclError::ExpectedExpression { at } => DeclErrorModel::ExpectedExpression {
                at: *at as int,
            },
            DeclError::ExpectedType { at } => DeclErrorModel::ExpectedType { at: *at as int },
            DeclError::ExpectedFatArrow { at } => DeclErrorModel::ExpectedFatArrow {
                at: *at as int,
            },
            DeclError::ExpectedEq { at } => DeclErrorModel::ExpectedEq { at: *at as int },
            DeclError::UnexpectedToken { at } => DeclErrorModel::UnexpectedToken { at: *at as int },
            DeclError::DuplicateMethod { at } => DeclErrorModel::DuplicateMethod { at: *at as int },
            DeclError::DuplicateAccess { at } => DeclErrorModel::DuplicateAccess { at: *at as int },
            DeclError::UnknownKey { key, at } => DeclErrorModel::UnknownKey {
                key: key@,
                at: *at as int,
            },
            DeclError::UnknownMethod(s) => DeclErrorModel::UnknownMethod(s@),
            DeclError::UnknownAccess(s) => DeclErrorModel::UnknownAccess(s@),
        }
    }
}

impl DeclErrorModel {
    /// The diagnostic text of the error.
    pub open spec fn message(self) -> Seq<char> {
        match self {
            DeclErrorModel::ExpectedIdent { .. } => "expected identifier"@,
            DeclErrorModel::ExpectedComma { .. } => "expected `,`"@,
            DeclErrorModel::ExpectedExpression { .. } => "expected an expression"@,
            DeclErrorModel::ExpectedType { .. } => "expected type"@,
            DeclErrorModel::ExpectedFatArrow { .. } => "expected `=>`"@,
            DeclErrorModel::ExpectedEq { .. } => "expected `=`"@,
            DeclErrorModel::UnexpectedToken { .. } => "unexpected token"@,
            DeclErrorModel::DuplicateMethod { .. } => "`method` specified twice"@,
            DeclErrorModel::DuplicateAccess { .. } => "`access` specified twice"@,
            DeclErrorModel::UnknownKey { key, .. } => "unknown key `"@ + key
                + "`; expected `method` or `access`\nhint: valid syntax is `define_ioctl!(NAME, device_type, function, Input => Output, method = Buffered, access = Any)`"@,
            DeclErrorModel::UnknownMethod(m) => "unknown transfer method `"@ + m
                + "`; expected one of: Buffered (default), InDirect, OutDirect, Neither"@,
            DeclErrorModel::UnknownAccess(a) => "unknown required access `"@ + a
                + "`; expected one of: Any (default), Read, Write, ReadWrite"@,
        }
    }
}

impl DeclError {
    /// The diagnostic text of the error, as the declaration macro reports it.
    pub fn message(&self) -> (s: String)
        ensures
            s@ == self@.message(),
    {
        match self {
            DeclError::ExpectedIdent { .. } => String::from_str("expected identifier"),
            DeclError::ExpectedComma { .. } => String::from_str("expected `,`"),
            DeclError::ExpectedExpression { .. } => String::from_str("expected an expression"),
            DeclError::ExpectedType { .. } => String::from_str("expected type"),
            DeclError::ExpectedFatArrow { .. } => String::from_str("expected `=>`"),
            DeclError::ExpectedEq { .. } => String::from_str("expected `=`"),
            DeclError::UnexpectedToken { .. } => String::from_str("unexpected token"),
            DeclError::DuplicateMethod { .. } => String::from_str("`method` specified twice"),
            DeclError::DuplicateAccess { .. } => String::from_str("`access` specified twice"),
            DeclError::UnknownKey { key, .. } => {
                let mut s = String::from_str("unknown key `");
                s.append(key.as_str());
                s.append("`; expected `method` or `access`\nhint: valid syntax is `define_ioctl!(NAME, device_type, function, Input => Output, method = Buffered, access = Any)`");
                s
            },
            DeclError::UnknownMethod(m) => {
                let mut s = String::from_str("unknown transfer method `");
                s.append(m.as_str());
                s.append("`; expected one of: Buffered (default), InDirect, OutDirect, Neither");
                s
            },
            DeclError::UnknownAccess(a) => {
                let mut s = String::from_str("unknown required access `");
                s.append(a.as_str());
                s.append("`; expected one of: Any (default), Read, Write, ReadWrite");
                s
            },
        }
    }
}

/// The `method` and `access` values of an option list, as written.
#[derive(Debug)]
pub struct IoctlOptions {
    /// The identifier given for `method`, if any.
    pub method: Option<String>,
    /// The identifier given for `access`, if any.
    pub access: Option<String>,
}

/// The text of an optional string.
pub open spec fn opt_text(o: Option<String>) -> Option<Seq<char>> {
    match o {
        Some(s) => Some(s@),
        None => None,
    }
}

/// `true` if `t` is an identifier token.
pub open spec fn is_ident(t: DeclToken) -> bool {
    t is Ident
}

/// The text of an identifier token.
pub open spec fn ident_text(t: DeclToken) -> Seq<char> {
    match t {
        DeclToken::Ident(s) => s@,
        _ => Seq::empty(),
    }
}

/// Reading the option list `toks`, whose first token has index `at` in the
/// whole input, with `method` and `access` already given by earlier options.
/// Each option is `, key = value`; a single trailing `,` ends the list;
/// anything else left over is an error.
pub open spec fn parse_options_from(
    toks: Seq<DeclToken>,
    at: int,
    method: Option<Seq<char>>,
    access: Option<Seq<char>>,
) -> Result<(Option<Seq<char>>, Option<Seq<char>>), DeclErrorModel>
    decreases toks.len(),
{
    if toks.len() == 0 {
        Ok((method, access))
    } else if !(toks[0] is Comma) {
        Err(DeclErrorModel::UnexpectedToken { at })
    } else if toks.len() == 1 {
        Ok((method, access))
    } else if !is_ident(toks[1]) {
        Err(DeclErrorModel::ExpectedIdent { at: at + 1 })
    } else if toks.len() < 3 || !(toks[2] is Eq) {
        Err(DeclErrorModel::ExpectedEq { at: at + 2 })
    } else if toks.len() < 4 || !is_ident(toks[3]) {
        Err(DeclErrorModel::ExpectedIdent { at: at + 3 })
    } else {
        let key = ident_text(toks[1]);
        let value = ident_text(toks[3]);
        if key == "method"@ {
            if method is Some {
                Err(DeclErrorModel::DuplicateMethod { at: at + 1 })
            } else {
                parse_options_from(toks.skip(4), at + 4, Some(value), access)
            }
        } else if key == "access"@ {
            if access is Some {
                Err(DeclErrorModel::DuplicateAccess { at: at + 1 })
            } else {
                parse_options_from(toks.skip(4), at + 4, method, Some(value))
            }
        } else {
            Err(DeclErrorModel::UnknownKey { key, at: at + 1 })
        }
    }
}

/// Reads the option list `toks[start..]`: the `method` and `access`
/// identifiers it gives, or the first error in it (positions are indices
/// into `toks`).
pub fn parse_options_at(toks: &[DeclToken], start: usize) -> (r: Result<IoctlOptions, DeclError>)
    requires
        start <= toks@.len(),
    ensures
        match r {
            Ok(opts) => parse_options_from(toks@.skip(start as int), start as int, None, None)
                == Ok::<(Option<Seq<char>>, Option<Seq<char>>), DeclErrorModel>(
                (opt_text(opts.method), opt_text(opts.access)),
            ),
            Err(e) => parse_options_from(toks@.skip(start as int), start as int, None, None)
                == Err::<(Option<Seq<char>>, Option<Seq<char>>), DeclErrorModel>(e@),
        },
{
    let n = toks.len();
    let mut method: Option<String> = None;
    let mut access: Option<String> = None;
    let mut i: usize = start;
    let method_key = String::from_str("method");
    let access_key = String::from_str("access");
    while i < n
        invariant
            n == toks@.len(),
            start <= i <= n,
            method_key@ == "method"@,
            access_key@ == "access"@,
            parse_options_from(toks@.skip(i as int), i as int, opt_text(method), opt_text(access))
                == parse_options_from(toks@.skip(start as int), start as int, None, None),
        decreases n - i,
    {
        let ghost rest = toks@.skip(i as int);
        assert(rest[0] == toks@[i as int]);
        match &toks[i] {
            DeclToken::Comma => {},
            _ => {
                return Err(DeclError::UnexpectedToken { at: i });
            },
        }
        if i + 1 == n {
            assert(rest.len() == 1);
            return Ok(IoctlOptions { method, access });
        }
        assert(rest[1] == toks@[i + 1]);
        let key = match &toks[i + 1] {
            DeclToken::Ident(k) => k,
            _ => {
                return Err(DeclError::ExpectedIdent { at: i + 1 });
            },
        };
        if i + 2 == n {
            return Err(DeclError::ExpectedEq { at: i + 2 });
        }
        assert(rest[2] == toks@[i + 2]);
        match &toks[i + 2] {
            DeclToken::Eq => {},
            _ => {
                return Err(DeclError::ExpectedEq { at: i + 2 });
            },
        }
        if i + 3 == n {
            return Err(DeclError::ExpectedIdent { at: i + 3 });
        }
        assert(rest[3] == toks@[i + 3]);
        let value = match &toks[i + 3] {
            DeclToken::Ident(v) => v,
            _ => {
                return Err(DeclError::ExpectedIdent { at: i + 3 });
            },
        };
        assert(rest.skip(4) =~= toks@.skip(i + 4));
        if *key == method_key {
            if method.is_some() {
                return Err(DeclError::DuplicateMethod { at: i + 1 });
            }
            method = Some(value.clone());
        } else if *key == access_key {
            if access.is_some() {
                return Err(DeclError::DuplicateAccess { at: i + 1 });
            }
            access = Some(value.clone());
        } else {
            return Err(DeclError::UnknownKey { key: key.clone(), at: i + 1 });
        }
        i = i + 4;
    }
    assert(toks@.skip(n as int).len() == 0);
    Ok(IoctlOptions { method, access })
}

/// Reads an option list on its own: the `method` and `access` identifiers
/// it gives, or the first error in it.
pub fn parse_options(toks: &[DeclToken]) -> (r: Result<IoctlOptions, DeclError>)
    ensures
        match r {
            Ok(opts) => parse_options_from(toks@, 0, None, None) == Ok::<
                (Option<Seq<char>>, Option<Seq<char>>),
                DeclErrorModel,
            >((opt_text(opts.method), opt_text(opts.access))),
            Err(e) => parse_options_from(toks@, 0, None, None) == Err::<
                (Option<Seq<char>>, Option<Seq<char>>),
                DeclErrorModel,
            >(e@),
        },
{
    assert(toks@.skip(0) =~= toks@);
    parse_options_at(toks, 0)
}

/// `true` if `t` is one complete option, `, key = value`.
pub open spec fn is_option(t: Seq<DeclToken>) -> bool {
    &&& t.len() == 4
    &&& t[0] is Comma
    &&& is_ident(t[1])
    &&& t[2] is Eq
    &&& is_ident(t[3])
}

/// A single trailing comma after a well-formed list of options changes
/// nothing.
pub proof fn lemma_trailing_comma(
    toks: Seq<DeclToken>,
    at: int,
    method: Option<Seq<char>>,
    access: Option<Seq<char>>,
)
    requires
        toks.len() % 4 == 0,
        parse_options_from(toks, at, method, access) is Ok,
    ensures
        parse_options_from(toks.push(DeclToken::Comma), at, method, access) == parse_options_from(
            toks,
            at,
            method,
            access,
        ),
    decreases toks.len(),
{
    let t = toks.push(DeclToken::Comma);
    if toks.len() == 0 {
        assert(t.len() == 1);
    } else {
        assert(t[0] == toks[0] && t[1] == toks[1] && t[2] == toks[2] && t[3] == toks[3]);
        assert(t.skip(4) =~= toks.skip(4).push(DeclToken::Comma));
        let key = ident_text(toks[1]);
        let value = ident_text(toks[3]);
        if key == "method"@ {
            lemma_trailing_comma(toks.skip(4), at + 4, Some(value), access);
        } else if key == "access"@ {
            lemma_trailing_comma(toks.skip(4), at + 4, method, Some(value));
        }
    }
}

/// The `method` and `access` options may be given in either order.
pub proof fn lemma_option_order(a: Seq<DeclToken>, b: Seq<DeclToken>, at: int)
    requires
        is_option(a),
        is_option(b),
        ident_text(a[1]) == "method"@,
        ident_text(b[1]) == "access"@,
    ensures
        parse_options_from(a + b, at, None, None) == parse_options_from(b + a, at, None, None),
        parse_options_from(a + b, at, None, None) == Ok::<
            (Option<Seq<char>>, Option<Seq<char>>),
            DeclErrorModel,
        >((Some(ident_text(a[3])), Some(ident_text(b[3])))),
{
    reveal_with_fuel(parse_options_from, 3);
    assert("method"@ != "access"@) by {
        reveal_strlit("method");
        reveal_strlit("access");
        assert("method"@[0] != "access"@[0]);
    }
    let ab = a + b;
    let ba = b + a;
    assert(ab.skip(4) =~= b);
    assert(ba.skip(4) =~= a);
    assert(ab[0] == a[0] && ab[1] == a[1] && ab[2] == a[2] && ab[3] == a[3]);
    assert(ba[0] == b[0] && ba[1] == b[1] && ba[2] == b[2] && ba[3] == b[3]);
    assert(a.skip(4).len() == 0 && b.skip(4).len() == 0);
}

/// `true` if token `i` of `toks` is the identifier `key`.
pub open spec fn key_at(toks: Seq<DeclToken>, i: int, key: Seq<char>) -> bool {
    0 <= i < toks.len() && is_ident(toks[i]) && ident_text(toks[i]) == key
}

/// A repeated `method` or `access` key is reported at the second key: the
/// error's position holds that key, and the same key came before it (in this
/// list, or in the options already read).
pub proof fn lemma_duplicate_at_second_key(
    toks: Seq<DeclToken>,
    at: int,
    method: Option<Seq<char>>,
    access: Option<Seq<char>>,
)
    ensures
        parse_options_from(toks, at, method, access) matches Err(
            DeclErrorModel::DuplicateMethod { at: k },
        ) ==> key_at(toks, k - at, "method"@) && (method is Some || exists|j: int|
            0 <= j < k - at && #[trigger] key_at(toks, j, "method"@)),
        parse_options_from(toks, at, method, access) matches Err(
            DeclErrorModel::DuplicateAccess { at: k },
        ) ==> key_at(toks, k - at, "access"@) && (access is Some || exists|j: int|
            0 <= j < k - at && #[trigger] key_at(toks, j, "access"@)),
    decreases toks.len(),
{
    if toks.len() >= 4 && toks[0] is Comma && is_ident(toks[1]) && toks[2] is Eq && is_ident(
        toks[3],
    ) {
        let rest = toks.skip(4);
        let key = ident_text(toks[1]);
        let value = ident_text(toks[3]);
        let (m2, a2) = if key == "method"@ {
            (Some(value), access)
        } else {
            (method, Some(value))
        };
        lemma_duplicate_at_second_key(rest, at + 4, m2, a2);
        assert forall|i: int| 0 <= i < rest.len() implies (key_at(rest, i, "method"@) == key_at(
            toks,
            i + 4,
            "method"@,
        ) && key_at(rest, i, "access"@) == key_at(toks, i + 4, "access"@)) by {
            assert(rest[i] == toks[i + 4]);
        }
        if let Err(DeclErrorModel::DuplicateMethod { at: k }) = parse_options_from(
            toks,
            at,
            method,
            access,
        ) {
            if key == "method"@ && method is None {
                assert(key_at(toks, 1, "method"@));
                assert(key_at(rest, k - at - 4, "method"@));
            } else if key == "method"@ {
            } else if method is None {
                let j = choose|j: int| 0 <= j < k - at - 4 && #[trigger] key_at(rest, j, "method"@);
                assert(key_at(toks, j + 4, "method"@));
            }
        }
        if let Err(DeclErrorModel::DuplicateAccess { at: k }) = parse_options_from(
            toks,
            at,
            method,
            access,
        ) {
            if key == "access"@ && access is None {
                assert(key_at(toks, 1, "access"@));
                assert(key_at(rest, k - at - 4, "access"@));
            } else if key == "access"@ {
            } else if access is None {
                let j = choose|j: int| 0 <= j < k - at - 4 && #[trigger] key_at(rest, j, "access"@);
                assert(key_at(toks, j + 4, "access"@));
            }
        }
    }
}

/// `true` if `t` can stand for an expression or a type already read as one
/// item: an identifier or another item.
pub open spec fn is_item(t: DeclToken) -> bool {
    t is Ident || t is Other
}

/// The text of an identifier or item token.
pub open spec fn item_text(t: DeclToken) -> Seq<char> {
    match t {
        DeclToken::Ident(s) => s@,
        DeclToken::Other(s) => s@,
        _ => Seq::empty(),
    }
}

/// The first error in the leading arguments
/// `NAME , device_type , function , Input => Output` (tokens 0 to 8), if any.
pub open spec fn head_error(toks: Seq<DeclToken>) -> Option<DeclErrorModel> {
    if toks.len() < 1 || !is_ident(toks[0]) {
        Some(DeclErrorModel::ExpectedIdent { at: 0 })
    } else if toks.len() < 2 || !(toks[1] is Comma) {
        Some(DeclErrorModel::ExpectedComma { at: 1 })
    } else if toks.len() < 3 || !is_item(toks[2]) {
        Some(DeclErrorModel::ExpectedExpression { at: 2 })
    } else if toks.len() < 4 || !(toks[3] is Comma) {
        Some(DeclErrorModel::ExpectedComma { at: 3 })
    } else if toks.len() < 5 || !is_item(toks[4]) {
        Some(DeclErrorModel::ExpectedExpression { at: 4 })
    } else if toks.len() < 6 || !(toks[5] is Comma) {
        Some(DeclErrorModel::ExpectedComma { at: 5 })
    } else if toks.len() < 7 || !is_item(toks[6]) {
        Some(DeclErrorModel::ExpectedType { at: 6 })
    } else if toks.len() < 8 || !(toks[7] is FatArrow) {
        Some(DeclErrorModel::ExpectedFatArrow { at: 7 })
    } else if toks.len() < 9 || !is_item(toks[8]) {
        Some(DeclErrorModel::ExpectedType { at: 8 })
    } else {
        None
    }
}

/// The leading arguments are accepted exactly when there are at least nine
/// tokens shaped `Ident , item , item , item => item`, where an item is any
/// identifier or other item (a named constant such as `FILE_DEVICE_UNKNOWN`
/// is as good an expression as a literal). Otherwise the error is at the
/// first token out of shape, or at the input's end.
pub proof fn lemma_head_shape(toks: Seq<DeclToken>)
    ensures
        head_error(toks) is None <==> {
            &&& toks.len() >= 9
            &&& toks[0] is Ident
            &&& toks[1] is Comma
            &&& (toks[2] is Ident || toks[2] is Other)
            &&& toks[3] is Comma
            &&& (toks[4] is Ident || toks[4] is Other)
            &&& toks[5] is Comma
            &&& (toks[6] is Ident || toks[6] is Other)
            &&& toks[7] is FatArrow
            &&& (toks[8] is Ident || toks[8] is Other)
        },
        head_error(toks) matches Some(e) ==> {
            let at = error_position(e);
            &&& 0 <= at < 9
            &&& forall|i: int| 0 <= i < at ==> i < toks.len() && head_shape_at(toks[i], i)
            &&& !(at < toks.len() && head_shape_at(toks[at], at))
        },
{
}

/// Whether token `t` has the shape that position `i` of the leading
/// arguments asks for.
pub open spec fn head_shape_at(t: DeclToken, i: int) -> bool {
    if i == 0 {
        t is Ident
    } else if i == 1 || i == 3 || i == 5 {
        t is Comma
    } else if i == 7 {
        t is FatArrow
    } else {
        t is Ident || t is Other
    }
}

/// The token position an error concerns (0 for an error on a value).
pub open spec fn error_position(e: DeclErrorModel) -> int {
    match e {
        DeclErrorModel::ExpectedIdent { at } => at,
        DeclErrorModel::ExpectedComma { at } => at,
        DeclErrorModel::ExpectedExpression { at } => at,
        DeclErrorModel::ExpectedType { at } => at,
        DeclErrorModel::ExpectedFatArrow { at } => at,
        DeclErrorModel::ExpectedEq { at } => at,
        DeclErrorModel::UnexpectedToken { at } => at,
        DeclErrorModel::DuplicateMethod { at } => at,
        DeclErrorModel::DuplicateAccess { at } => at,
        DeclErrorModel::UnknownKey { at, .. } => at,
        DeclErrorModel::UnknownMethod(_) => 0,
        DeclErrorModel::UnknownAccess(_) => 0,
    }
}

/// The arguments of a declaration, as written.
#[derive(Debug)]
pub struct DeclarationArgs {
    /// The constant's name.
    pub const_name: String,
    /// The device-type expression.
    pub device_type: String,
    /// The function-code expression.
    pub function: String,
    /// The input buffer type.
    pub input_type: String,
    /// The output buffer type.
    pub output_type: String,
    /// The `method` and `access` options.
    pub options: IoctlOptions,
}

fn ident_at(toks: &[DeclToken], i: usize) -> (r: Option<String>)
    ensures
        match r {
            Some(s) => i < toks@.len() && is_ident(toks@[i as int]) && s@ == ident_text(
                toks@[i as int],
            ),
            None => !(i < toks@.len() && is_ident(toks@[i as int])),
        },
{
    if i >= toks.len() {
        return None;
    }
    match &toks[i] {
        DeclToken::Ident(s) => Some(s.clone()),
        _ => None,
    }
}

fn item_at(toks: &[DeclToken], i: usize) -> (r: Option<String>)
    ensures
        match r {
            Some(s) => i < toks@.len() && is_item(toks@[i as int]) && s@ == item_text(
                toks@[i as int],
            ),
            None => !(i < toks@.len() && is_item(toks@[i as int])),
        },
{
    if i >= toks.len() {
        return None;
    }
    match &toks[i] {
        DeclToken::Ident(s) => Some(s.clone()),
        DeclToken::Other(s) => Some(s.clone()),
        _ => None,
    }
}

fn comma_at(toks: &[DeclToken], i: usize) -> (r: bool)
    ensures
        r == (i < toks@.len() && toks@[i as int] is Comma),
{
    if i >= toks.len() {
        return false;
    }
    match &toks[i] {
        DeclToken::Comma => true,
        _ => false,
    }
}

/// Reads a whole declaration `NAME, device_type, function, Input => Output
/// <options>`: its arguments as written, or the first error (positions are
/// token indices).
pub fn parse_declaration(toks: &[DeclToken]) -> (r: Result<DeclarationArgs, DeclError>)
    ensures
        match r {
            Ok(args) => {
                &&& head_error(toks@) is None
                &&& args.const_name@ == ident_text(toks@[0])
                &&& args.device_type@ == item_text(toks@[2])
                &&& args.function@ == item_text(toks@[4])
                &&& args.input_type@ == item_text(toks@[6])
                &&& args.output_type@ == item_text(toks@[8])
                &&& parse_options_from(toks@.skip(9), 9, None, None) == Ok::<
                    (Option<Seq<char>>, Option<Seq<char>>),
                    DeclErrorModel,
                >((opt_text(args.options.method), opt_text(args.options.access)))
            },
            Err(e) => match head_error(toks@) {
                Some(h) => e@ == h,
                None => parse_options_from(toks@.skip(9), 9, None, None) == Err::<
                    (Option<Seq<char>>, Option<Seq<char>>),
                    DeclErrorModel,
                >(e@),
            },
        },
{
    let const_name = match ident_at(toks, 0) {
        Some(s) => s,
        None => {
            return Err(DeclError::ExpectedIdent { at: 0 });
        },
    };
    if !comma_at(toks, 1) {
        return Err(DeclError::ExpectedComma { at: 1 });
    }
    let device_type = match item_at(toks, 2) {
        Some(s) => s,
        None => {
            return Err(DeclError::ExpectedExpression { at: 2 });
        },
    };
    if !comma_at(toks, 3) {
        return Err(DeclError::ExpectedComma { at: 3 });
    }
    let function = match item_at(toks, 4) {
        Some(s) => s,
        None => {
            return Err(DeclError::ExpectedExpression { at: 4 });
        },
    };
    if !comma_at(toks, 5) {
        return Err(DeclError::ExpectedComma { at: 5 });
    }
    let input_type = match item_at(toks, 6) {
        Some(s) => s,
        None => {
            return Err(DeclError::ExpectedType { at: 6 });
        },
    };
    let arrow = if toks.len() <= 7 {
        false
    } else {
        match &toks[7] {
            DeclToken::FatArrow => true,
            _ => false,
        }
    };
    if !arrow {
        return Err(DeclError::ExpectedFatArrow { at: 7 });
    }
    let output_type = match item_at(toks, 8) {
        Some(s) => s,
        None => {
            return Err(DeclError::ExpectedType { at: 8 });
        },
    };
    let options = match parse_options_at(toks, 9) {
        Ok(o) => o,
        Err(e) => {
            return Err(e);
        },
    };
    Ok(DeclarationArgs { const_name, device_type, function, input_type, output_type, options })
}

/// The transfer method an identifier names, if any.
pub open spec fn method_named(name: Seq<char>) -> Option<TransferMethod> {
    if name == "Buffered"@ {
        Some(TransferMethod::Buffered)
    } else if name == "InDirect"@ {
        Some(TransferMethod::InDirect)
    } else if name == "OutDirect"@ {
        Some(TransferMethod::OutDirect)
    } else if name == "Neither"@ {
        Some(TransferMethod::Neither)
    } else {
        None
    }
}

/// The required access an identifier names, if any.
pub open spec fn access_named(name: Seq<char>) -> Option<RequiredAccess> {
    if name == "Any"@ {
        Some(RequiredAccess::Any)
    } else if name == "Read"@ {
        Some(RequiredAccess::Read)
    } else if name == "Write"@ {
        Some(RequiredAccess::Write)
    } else if name == "ReadWrite"@ {
        Some(RequiredAccess::ReadWrite)
    } else {
        None
    }
}

/// The transfer method of an optional `method` value: `Buffered` when absent.
pub open spec fn spec_resolve_method(ident: Option<Seq<char>>) -> Result<
    TransferMethod,
    DeclErrorModel,
> {
    match ident {
        None => Ok(TransferMethod::Buffered),
        Some(name) => match method_named(name) {
            Some(m) => Ok(m),
            None => Err(DeclErrorModel::UnknownMethod(name)),
        },
    }
}

/// The required access of an optional `access` value: `Any` when absent.
pub open spec fn spec_resolve_access(ident: Option<Seq<char>>) -> Result<
    RequiredAccess,
    DeclErrorModel,
> {
    match ident {
        None => Ok(RequiredAccess::Any),
        Some(name) => match access_named(name) {
            Some(a) => Ok(a),
            None => Err(DeclErrorModel::UnknownAccess(name)),
        },
    }
}

/// The text of an optional string slice.
pub open spec fn opt_str_text(o: Option<&str>) -> Option<Seq<char>> {
    match o {
        Some(s) => Some(s@),
        None => None,
    }
}

/// Resolves the `method` value of a declaration (default `Buffered`).
pub fn resolve_method(ident: Option<&str>) -> (r: Result<TransferMethod, DeclError>)
    ensures
        match r {
            Ok(m) => spec_resolve_method(opt_str_text(ident)) == Ok::<
                TransferMethod,
                DeclErrorModel,
            >(m),
            Err(e) => spec_resolve_method(opt_str_text(ident)) == Err::<
                TransferMethod,
                DeclErrorModel,
            >(e@),
        },
{
    match ident {
        None => Ok(TransferMethod::Buffered),
        Some(name) => {
            let name = String::from_str(name);
            if name == String::from_str("Buffered") {
                Ok(TransferMethod::Buffered)
            } else if name == String::from_str("InDirect") {
                Ok(TransferMethod::InDirect)
            } else if name == String::from_str("OutDirect") {
                Ok(TransferMethod::OutDirect)
            } else if name == String::from_str("Neither") {
                Ok(TransferMethod::Neither)
            } else {
                Err(DeclError::UnknownMethod(name))
            }
        },
    }
}

/// Resolves the `access` value of a declaration (default `Any`).
pub fn resolve_access(ident: Option<&str>) -> (r: Result<RequiredAccess, DeclError>)
    ensures
        match r {
            Ok(a) => spec_resolve_access(opt_str_text(ident)) == Ok::<
                RequiredAccess,
                DeclErrorModel,
            >(a),
            Err(e) => spec_resolve_access(opt_str_text(ident)) == Err::<
                RequiredAccess,
                DeclErrorModel,
            >(e@),
        },
{
    match ident {
        None => Ok(RequiredAccess::Any),
        Some(name) => {
            let name = String::from_str(name);
            if name == String::from_str("Any") {
                Ok(RequiredAccess::Any)
            } else if name == String::from_str("Read") {
                Ok(RequiredAccess::Read)
            } else if name == String::from_str("Write") {
                Ok(RequiredAccess::Write)
            } else if name == String::from_str("ReadWrite") {
                Ok(RequiredAccess::ReadWrite)
            } else {
                Err(DeclError::UnknownAccess(name))
            }
        },
    }
}

/// What std's `str::to_uppercase` returns for a string with these characters
/// (Unicode's upper-case mapping, character by character).
pub uninterp spec fn upper_text(s: Seq<char>) -> Seq<char>;

/// What std's `str::to_lowercase` returns for a string with these characters
/// (Unicode's lower-case mapping, with the final-sigma rule).
pub uninterp spec fn lower_text(s: Seq<char>) -> Seq<char>;

/// Calls std's `str::to_uppercase`; its result depends on the characters alone
/// and is named [`upper_text`].
#[verifier::external_body]
fn str_to_uppercase(s: &str) -> (r: String)
    ensures
        r@ == upper_text(s@),
{
    s.to_uppercase()
}

/// Calls std's `str::to_lowercase`; its result depends on the characters alone
/// and is named [`lower_text`].
#[verifier::external_body]
fn str_to_lowercase(s: &str) -> (r: String)
    ensures
        r@ == lower_text(s@),
{
    s.to_lowercase()
}

/// The `_`-separated words of `s`, as `str::split('_')` yields them: empty
/// words included, and one word for a name with no `_`.
pub open spec fn underscore_words(s: Seq<char>) -> Seq<Seq<char>>
    decreases s.len(),
{
    if s.len() == 0 {
        seq![Seq::empty()]
    } else {
        let words = underscore_words(s.drop_last());
        if s.last() == '_' {
            words.push(Seq::empty())
        } else {
            words.update(words.len() - 1, words.last().push(s.last()))
        }
    }
}

/// A word with its first character upper-cased and the rest lower-cased.
pub open spec fn capitalized(w: Seq<char>) -> Seq<char> {
    if w.len() == 0 {
        Seq::empty()
    } else {
        upper_text(w.take(1)) + lower_text(w.skip(1))
    }
}

/// The capitalized words, joined.
pub open spec fn join_capitalized(words: Seq<Seq<char>>) -> Seq<char>
    decreases words.len(),
{
    if words.len() == 0 {
        Seq::empty()
    } else {
        join_capitalized(words.drop_last()) + capitalized(words.last())
    }
}

/// `SCREAMING_SNAKE_CASE` to `PascalCase`: `IOCTL_MY_REQUEST` to `IoctlMyRequest`.
pub open spec fn pascal_case(name: Seq<char>) -> Seq<char> {
    join_capitalized(underscore_words(name))
}

proof fn lemma_words_nonempty(s: Seq<char>)
    ensures
        underscore_words(s).len() >= 1,
    decreases s.len(),
{
    if s.len() > 0 {
        lemma_words_nonempty(s.drop_last());
    }
}

proof fn lemma_words_of_word(w: Seq<char>)
    requires
        !w.contains('_'),
    ensures
        underscore_words(w) == seq![w],
    decreases w.len(),
{
    if w.len() > 0 {
        assert(!w.drop_last().contains('_')) by {
            if w.drop_last().contains('_') {
                let i = choose|i: int| 0 <= i < w.drop_last().len() && w.drop_last()[i] == '_';
                assert(w[i] == '_');
            }
        }
        lemma_words_of_word(w.drop_last());
        assert(w.last() != '_') by {
            assert(w[w.len() - 1] == w.last());
        }
        assert(w.drop_last().push(w.last()) =~= w);
        assert(seq![w.drop_last()].update(0, w.drop_last().push(w.last())) =~= seq![w]);
    } else {
        assert(w =~= Seq::<char>::empty());
    }
}

proof fn lemma_words_concat(a: Seq<char>, b: Seq<char>)
    ensures
        underscore_words(a + seq!['_'] + b) == underscore_words(a) + underscore_words(b),
    decreases b.len(),
{
    let s = a + seq!['_'] + b;
    lemma_words_nonempty(a);
    if b.len() == 0 {
        assert(s.drop_last() =~= a);
        assert(underscore_words(a).push(Seq::empty()) =~= underscore_words(a) + seq![
            Seq::<char>::empty(),
        ]);
    } else {
        assert(s.drop_last() =~= a + seq!['_'] + b.drop_last());
        lemma_words_concat(a, b.drop_last());
        lemma_words_nonempty(b.drop_last());
        let wa = underscore_words(a);
        let wb = underscore_words(b.drop_last());
        if b.last() == '_' {
            assert((wa + wb).push(Seq::empty()) =~= wa + wb.push(Seq::empty()));
        } else {
            assert((wa + wb).update((wa + wb).len() - 1, (wa + wb).last().push(b.last())) =~= wa
                + wb.update(wb.len() - 1, wb.last().push(b.last())));
        }
    }
}

proof fn lemma_join_capitalized_concat(x: Seq<Seq<char>>, y: Seq<Seq<char>>)
    ensures
        join_capitalized(x + y) == join_capitalized(x) + join_capitalized(y),
    decreases y.len(),
{
    if y.len() == 0 {
        assert(x + y =~= x);
        assert(join_capitalized(x) + Seq::<char>::empty() =~= join_capitalized(x));
    } else {
        assert((x + y).drop_last() =~= x + y.drop_last());
        lemma_join_capitalized_concat(x, y.drop_last());
        assert(join_capitalized(x) + join_capitalized(y.drop_last()) + capitalized(y.last())
            =~= join_capitalized(x) + (join_capitalized(y.drop_last()) + capitalized(y.last())));
    }
}

/// A word without `_` becomes its first character upper-cased followed by
/// the rest lower-cased, whatever its length; the empty name gives nothing.
pub proof fn lemma_pascal_case_word(w: Seq<char>)
    requires
        !w.contains('_'),
    ensures
        w.len() > 0 ==> pascal_case(w) == upper_text(w.take(1)) + lower_text(w.skip(1)),
        w.len() == 0 ==> pascal_case(w) == Seq::<char>::empty(),
{
    lemma_words_of_word(w);
    let one = seq![w];
    assert(one.drop_last() =~= Seq::<Seq<char>>::empty());
    assert(join_capitalized(Seq::<Seq<char>>::empty()) == Seq::<char>::empty());
    assert(join_capitalized(one) == join_capitalized(one.drop_last()) + capitalized(w));
    assert(Seq::<char>::empty() + capitalized(w) =~= capitalized(w));
    assert(pascal_case(w) == join_capitalized(one));
}

/// The words of a name are converted one by one: the PascalCase of
/// `a_b` is that of `a` followed by that of `b`.
pub proof fn lemma_pascal_case_join(a: Seq<char>, b: Seq<char>)
    ensures
        pascal_case(a + seq!['_'] + b) == pascal_case(a) + pascal_case(b),
{
    lemma_words_concat(a, b);
    lemma_join_capitalized_concat(underscore_words(a), underscore_words(b));
}

/// The two case-mapped parts of a word: its first character upper-cased and
/// the rest lower-cased (both empty for an empty word).
pub open spec fn word_parts(w: Seq<char>) -> (Seq<char>, Seq<char>) {
    if w.len() == 0 {
        (Seq::empty(), Seq::empty())
    } else {
        (upper_text(w.take(1)), lower_text(w.skip(1)))
    }
}

/// The texts of a list of word parts.
pub open spec fn parts_text(parts: Seq<(String, String)>) -> Seq<(Seq<char>, Seq<char>)> {
    parts.map_values(|p: (String, String)| (p.0@, p.1@))
}

/// The word parts, joined in order.
pub open spec fn join_parts(parts: Seq<(Seq<char>, Seq<char>)>) -> Seq<char>
    decreases parts.len(),
{
    if parts.len() == 0 {
        Seq::empty()
    } else {
        join_parts(parts.drop_last()) + parts.last().0 + parts.last().1
    }
}

/// Joining the case-mapped parts of the words is joining the capitalized words.
proof fn lemma_join_parts(words: Seq<Seq<char>>)
    ensures
        join_parts(words.map_values(|w: Seq<char>| word_parts(w))) == join_capitalized(words),
    decreases words.len(),
{
    if words.len() > 0 {
        let m = words.map_values(|w: Seq<char>| word_parts(w));
        assert(m.drop_last() =~= words.drop_last().map_values(|w: Seq<char>| word_parts(w)));
        lemma_join_parts(words.drop_last());
        let j = join_parts(m.drop_last());
        if words.last().len() == 0 {
            assert(j + Seq::<char>::empty() + Seq::<char>::empty() =~= j);
            assert(j + capitalized(words.last()) =~= j);
        } else {
            assert(j + m.last().0 + m.last().1 =~= j + (m.last().0 + m.last().1));
        }
    }
}

fn case_parts(word: &str) -> (r: (String, String))
    ensures
        (r.0@, r.1@) == word_parts(word@),
{
    let n = word.unicode_len();
    if n == 0 {
        (String::new(), String::new())
    } else {
        let first = word.substring_char(0, 1);
        let rest = word.substring_char(1, n);
        (str_to_uppercase(first), str_to_lowercase(rest))
    }
}

/// The case-mapped parts of each `_`-separated word of a name.
fn alias_word_parts(name: &str) -> (r: Vec<(String, String)>)
    ensures
        parts_text(r@) == underscore_words(name@).map_values(|w: Seq<char>| word_parts(w)),
{
    let n = name.unicode_len();
    let mut out: Vec<(String, String)> = Vec::new();
    let mut start: usize = 0;
    let mut i: usize = 0;
    while i < n
        invariant
            n == name@.len(),
            start <= i <= n,
            underscore_words(name@.take(i as int)).len() >= 1,
            underscore_words(name@.take(i as int)).last() == name@.subrange(start as int, i as int),
            parts_text(out@) == underscore_words(name@.take(i as int)).drop_last().map_values(
                |w: Seq<char>| word_parts(w),
            ),
        decreases n - i,
    {
        let ghost p = name@.take(i as int);
        let ghost q = name@.take(i + 1);
        proof {
            assert(q.drop_last() =~= p);
            assert(q.last() == name@[i as int]);
            lemma_words_nonempty(p);
        }
        let c = name.get_char(i);
        if c == '_' {
            let word = name.substring_char(start, i);
            let parts = case_parts(word);
            let ghost old_out = out@;
            out.push(parts);
            proof {
                let w = underscore_words(p);
                assert(underscore_words(q) == w.push(Seq::empty()));
                assert(w.push(Seq::<char>::empty()).drop_last() =~= w);
                assert(w =~= w.drop_last().push(w.last()));
                assert(parts_text(out@) =~= parts_text(old_out).push(word_parts(word@)));
                assert(w.map_values(|v: Seq<char>| word_parts(v)) =~= w.drop_last().map_values(
                    |v: Seq<char>| word_parts(v),
                ).push(word_parts(w.last())));
            }
            start = i + 1;
            proof {
                assert(name@.subrange(start as int, i + 1) =~= Seq::<char>::empty());
            }
        } else {
            proof {
                let w = underscore_words(p);
                let w2 = w.update(w.len() - 1, w.last().push(c));
                assert(underscore_words(q) == w2);
                assert(w2.drop_last() =~= w.drop_last());
                assert(name@.subrange(start as int, i + 1) =~= name@.subrange(start as int, i as int).push(c));
            }
        }
        i = i + 1;
    }
    let word = name.substring_char(start, n);
    let parts = case_parts(word);
    let ghost old_out = out@;
    out.push(parts);
    proof {
        assert(name@.take(n as int) =~= name@);
        let w = underscore_words(name@);
        assert(w =~= w.drop_last().push(w.last()));
        assert(parts_text(out@) =~= parts_text(old_out).push(word_parts(word@)));
        assert(w.map_values(|v: Seq<char>| word_parts(v)) =~= w.drop_last().map_values(
            |v: Seq<char>| word_parts(v),
        ).push(word_parts(w.last())));
    }
    out
}

/// Assembles the type-alias names from the case-mapped parts of the words
/// of a constant's name (each part: the upper-cased first character and the
/// lower-cased rest): the parts joined in order, followed by `Input` and by
/// `Output`.
pub fn assemble_alias_names(parts: &[(String, String)]) -> (r: (String, String))
    ensures
        r.0@ == join_parts(parts_text(parts@)) + "Input"@,
        r.1@ == join_parts(parts_text(parts@)) + "Output"@,
{
    let n = parts.len();
    let mut pascal = String::new();
    let mut i: usize = 0;
    while i < n
        invariant
            n == parts@.len(),
            i <= n,
            pascal@ == join_parts(parts_text(parts@.take(i as int))),
        decreases n - i,
    {
        proof {
            assert(parts_text(parts@.take(i + 1)).drop_last() =~= parts_text(
                parts@.take(i as int),
            ));
            assert(parts_text(parts@.take(i + 1)).last() == (parts@[i as int].0@, parts@[
                i as int
            ].1@));
        }
        pascal.append(parts[i].0.as_str());
        pascal.append(parts[i].1.as_str());
        i = i + 1;
    }
    proof {
        assert(parts@.take(n as int) =~= parts@);
    }
    let mut input = pascal.clone();
    input.append("Input");
    let mut output = pascal;
    output.append("Output");
    (input, output)
}

/// The type-alias names of a declaration: the constant's name in PascalCase
/// followed by `Input` and by `Output` (`IOCTL_ECHO` gives `IoctlEchoInput`,
/// `IoctlEchoOutput`).
pub fn derive_alias_names(const_name: &str) -> (r: (String, String))
    ensures
        r.0@ == pascal_case(const_name@) + "Input"@,
        r.1@ == pascal_case(const_name@) + "Output"@,
{
    let parts = alias_word_parts(const_name);
    proof {
        lemma_join_parts(underscore_words(const_name@));
    }
    assemble_alias_names(parts.as_slice())
}

/// Spelling out the defaults (`method = Buffered, access = Any`) declares
/// the same fields as giving no options at all: `METHOD_BUFFERED` and
/// `FILE_ANY_ACCESS`.
pub proof fn lemma_explicit_defaults(a: Seq<DeclToken>, b: Seq<DeclToken>)
    requires
        is_option(a),
        is_option(b),
        ident_text(a[1]) == "method"@,
        ident_text(a[3]) == "Buffered"@,
        ident_text(b[1]) == "access"@,
        ident_text(b[3]) == "Any"@,
    ensures
        spec_declared_fields(a + b) == spec_declared_fields(Seq::empty()),
        spec_declared_fields(Seq::empty()) == Ok::<(TransferMethod, RequiredAccess), DeclErrorModel>(
            (TransferMethod::Buffered, RequiredAccess::Any),
        ),
{
    lemma_option_order(a, b, 0);
}

/// An optional value, or `default` when absent.
pub open spec fn text_or(o: Option<Seq<char>>, default: Seq<char>) -> Seq<char> {
    match o {
        Some(t) => t,
        None => default,
    }
}

proof fn lemma_method_name(m: TransferMethod, x: Seq<char>)
    ensures
        method_named(x) == Some(m) <==> x == m.spec_name(),
{
    reveal_strlit("Buffered");
    reveal_strlit("InDirect");
    reveal_strlit("OutDirect");
    reveal_strlit("Neither");
    assert("Buffered"@[0] != "InDirect"@[0]);
    assert("Buffered"@[0] != "OutDirect"@[0]);
    assert("Buffered"@[0] != "Neither"@[0]);
    assert("InDirect"@[0] != "OutDirect"@[0]);
    assert("InDirect"@[0] != "Neither"@[0]);
    assert("OutDirect"@[0] != "Neither"@[0]);
}

proof fn lemma_access_name(a: RequiredAccess, x: Seq<char>)
    ensures
        access_named(x) == Some(a) <==> x == a.spec_name(),
{
    reveal_strlit("Any");
    reveal_strlit("Read");
    reveal_strlit("Write");
    reveal_strlit("ReadWrite");
    assert("Any"@[0] != "Read"@[0]);
    assert("Any"@[0] != "Write"@[0]);
    assert("Any"@[0] != "ReadWrite"@[0]);
    assert("Read"@[0] != "Write"@[0]);
    assert("Write"@[0] != "ReadWrite"@[0]);
    assert("Read"@.len() != "ReadWrite"@.len());
}

/// The declared method is the one whose name the `method` option gives
/// (`Buffered` without one), and the declared access the one whose name the
/// `access` option gives (`Any` without one), each whatever the other option
/// is: for an option list that reads as `mo` and `ao`, the fields are
/// `(m, a)` exactly when those names are `m`'s and `a`'s.
pub proof fn lemma_declared_fields_named(
    toks: Seq<DeclToken>,
    mo: Option<Seq<char>>,
    ao: Option<Seq<char>>,
)
    requires
        parse_options_from(toks, 0, None, None) == Ok::<
            (Option<Seq<char>>, Option<Seq<char>>),
            DeclErrorModel,
        >((mo, ao)),
    ensures
        forall|m: TransferMethod, a: RequiredAccess|
            spec_declared_fields(toks) == Ok::<(TransferMethod, RequiredAccess), DeclErrorModel>(
                (m, a),
            ) <==> (m.spec_name() == text_or(mo, "Buffered"@) && a.spec_name() == text_or(
                ao,
                "Any"@,
            )),
{
    assert forall|m: TransferMethod, a: RequiredAccess|
        spec_declared_fields(toks) == Ok::<(TransferMethod, RequiredAccess), DeclErrorModel>(
            (m, a),
        ) <==> (m.spec_name() == text_or(mo, "Buffered"@) && a.spec_name() == text_or(
            ao,
            "Any"@,
        )) by {
        lemma_method_name(m, text_or(mo, "Buffered"@));
        lemma_access_name(a, text_or(ao, "Any"@));
        lemma_method_name(TransferMethod::Buffered, "Buffered"@);
        lemma_access_name(RequiredAccess::Any, "Any"@);
        lemma_method_name(m, "Buffered"@);
        lemma_access_name(a, "Any"@);
    }
}

/// A list of one option `, key = value` gives that value for `method` or
/// `access` and leaves the other unset; any other key is an unknown key at
/// token 1.
pub proof fn lemma_lone_option(key: String, value: String)
    ensures
        parse_options_from(
            seq![DeclToken::Comma, DeclToken::Ident(key), DeclToken::Eq, DeclToken::Ident(value)],
            0,
            None,
            None,
        ) == (if key@ == "method"@ {
            Ok::<(Option<Seq<char>>, Option<Seq<char>>), DeclErrorModel>((Some(value@), None))
        } else if key@ == "access"@ {
            Ok((None, Some(value@)))
        } else {
            Err(DeclErrorModel::UnknownKey { key: key@, at: 1 })
        }),
{
    let toks = seq![DeclToken::Comma, DeclToken::Ident(key), DeclToken::Eq, DeclToken::Ident(value)];
    assert(toks.skip(4).len() == 0);
    reveal_with_fuel(parse_options_from, 2);
}

/// What a declaration defines: the constant's name, its code, and the names
/// of the input and output type aliases.
#[derive(Debug)]
pub struct IoctlDefinition {
    /// The constant's name.
    pub name: String,
    /// The constant's value.
    pub code: IoControlCode,
    /// The name of the input-buffer type alias.
    pub input_alias: String,
    /// The name of the output-buffer type alias.
    pub output_alias: String,
}

impl IoctlDefinition {
    /// The doc text of the constant: `` `NAME` — type-safe IOCTL constant.``
    pub fn const_doc(&self) -> (s: String)
        ensures
            s@ == "`"@ + self.name@ + "` — type-safe IOCTL constant."@,
    {
        let mut s = String::from_str("`");
        s.append(self.name.as_str());
        s.append("` — type-safe IOCTL constant.");
        s
    }

    /// The doc text of the input alias: ``Input buffer type for [`NAME`].``
    pub fn input_doc(&self) -> (s: String)
        ensures
            s@ == "Input buffer type for [`"@ + self.name@ + "`]."@,
    {
        let mut s = String::from_str("Input buffer type for [`");
        s.append(self.name.as_str());
        s.append("`].");
        s
    }

    /// The doc text of the output alias: ``Output buffer type for [`NAME`].``
    pub fn output_doc(&self) -> (s: String)
        ensures
            s@ == "Output buffer type for [`"@ + self.name@ + "`]."@,
    {
        let mut s = String::from_str("Output buffer type for [`");
        s.append(self.name.as_str());
        s.append("`].");
        s
    }
}

/// The method and access of a declaration with this option list, or the
/// first error: option-list errors first, then an unknown `method`, then an
/// unknown `access`.
pub open spec fn spec_declared_fields(toks: Seq<DeclToken>) -> Result<
    (TransferMethod, RequiredAccess),
    DeclErrorModel,
> {
    match parse_options_from(toks, 0, None, None) {
        Err(e) => Err(e),
        Ok((method, access)) => match spec_resolve_method(method) {
            Err(e) => Err(e),
            Ok(m) => match spec_resolve_access(access) {
                Err(e) => Err(e),
                Ok(a) => Ok((m, a)),
            },
        },
    }
}

/// Turns a declaration `define_ioctl!(const_name, device_type, function,
/// Input => Output <options>)` into what it defines: the code
/// `CTL_CODE(device_type, function, method, access)` and the two alias names.
pub fn define_ioctl(const_name: &str, device_type: u16, function: u16, options: &[DeclToken]) -> (r:
    Result<IoctlDefinition, DeclError>)
    ensures
        match r {
            Ok(def) => {
                &&& spec_declared_fields(options@) matches Ok((m, a))
                &&& def.code@ == ctl_code(device_type, function, m, a)
                &&& def.name@ == const_name@
                &&& def.input_alias@ == pascal_case(const_name@) + "Input"@
                &&& def.output_alias@ == pascal_case(const_name@) + "Output"@
            },
            Err(e) => spec_declared_fields(options@) == Err::<
                (TransferMethod, RequiredAccess),
                DeclErrorModel,
            >(e@),
        },
{
    let opts = match parse_options(options) {
        Ok(o) => o,
        Err(e) => {
            return Err(e);
        },
    };
    let method = match &opts.method {
        Some(m) => resolve_method(Some(m.as_str())),
        None => resolve_method(None),
    };
    let method = match method {
        Ok(m) => m,
        Err(e) => {
            return Err(e);
        },
    };
    let access = match &opts.access {
        Some(a) => resolve_access(Some(a.as_str())),
        None => resolve_access(None),
    };
    let access = match access {
        Ok(a) => a,
        Err(e) => {
            return Err(e);
        },
    };
    let (input_alias, output_alias) = derive_alias_names(const_name);
    Ok(
        IoctlDefinition {
            name: String::from_str(const_name),
            code: IoControlCode::new(device_type, function, method, access),
            input_alias,
            output_alias,
        },
    )
}

} // verus!
