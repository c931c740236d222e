use vstd::prelude::*;

verus! {

/// One token of an annotation payload.
#[derive(Clone, Debug, PartialEq, Eq)]
pub enum Token {
    /// A bare word: a keyword or an identifier.
    Ident(String),
    /// An integer literal.
    Int(i64),
    /// A quoted string literal, holding its unquoted value.
    Str(String),
    /// The path separator `::`.
    PathSep,
    /// `,`
    Comma,
    /// `=`
    Eq,
}

/// An annotation on a field or on a whole declaration.
#[derive(Clone, Debug, PartialEq, Eq)]
pub enum Attribute {
    PrimaryKey,
    Unique,
    CompositeKey,
    /// `default(<payload>)`
    Default(Vec<Token>),
    /// `foreign_key(<payload>)`
    ForeignKey(Vec<Token>),
    /// `param(<payload>)`, on a projected field.
    Param(Vec<Token>),
    /// `cte_params(<payload>)`, on a projection.
    CteParams(Vec<Token>),
}

/// The text of an identifier token; empty for any other token.
pub open spec fn ident_text(t: Token) -> Seq<char> {
    match t {
        Token::Ident(s) => s@,
        _ => Seq::empty(),
    }
}

/// The value of a string-literal token; empty for any other token.
pub open spec fn str_text(t: Token) -> Seq<char> {
    match t {
        Token::Str(s) => s@,
        _ => Seq::empty(),
    }
}

/// Whether `t` is the bare word `w`.
pub open spec fn is_word(t: Token, w: Seq<char>) -> bool {
    t is Ident && ident_text(t) == w
}


/// The kind of an annotation, without its payload.
#[derive(Clone, Copy, Debug, PartialEq, Eq, Structural)]
pub enum AttrKind {
    PrimaryKey,
    Unique,
    CompositeKey,
    Default,
    ForeignKey,
    Param,
    CteParams,
}

pub open spec fn attr_kind(a: Attribute) -> AttrKind {
    match a {
        Attribute::PrimaryKey => AttrKind::PrimaryKey,
        Attribute::Unique => AttrKind::Unique,
        Attribute::CompositeKey => AttrKind::CompositeKey,
        Attribute::Default(_) => AttrKind::Default,
        Attribute::ForeignKey(_) => AttrKind::ForeignKey,
        Attribute::Param(_) => AttrKind::Param,
        Attribute::CteParams(_) => AttrKind::CteParams,
    }
}

/// The payload of an annotation; empty for a bare flag.
pub open spec fn attr_payload(a: Attribute) -> Seq<Token> {
    match a {
        Attribute::Default(t) => t@,
        Attribute::ForeignKey(t) => t@,
        Attribute::Param(t) => t@,
        Attribute::CteParams(t) => t@,
        _ => Seq::empty(),
    }
}

/// The payloads of the annotations of kind `k`, in order.
pub open spec fn payloads_of(attrs: Seq<Attribute>, k: AttrKind) -> Seq<Seq<Token>>
    decreases attrs.len(),
{
    if attrs.len() == 0 {
        Seq::empty()
    } else if attr_kind(attrs.last()) == k {
        payloads_of(attrs.drop_last(), k).push(attr_payload(attrs.last()))
    } else {
        payloads_of(attrs.drop_last(), k)
    }
}

/// Whether an annotation of kind `k` is present.
pub open spec fn has_attr(attrs: Seq<Attribute>, k: AttrKind) -> bool {
    payloads_of(attrs, k).len() > 0
}

impl Attribute {
    pub fn kind(&self) -> (r: AttrKind)
        ensures
            r == attr_kind(*self),
    {
        match self {
            Attribute::PrimaryKey => AttrKind::PrimaryKey,
            Attribute::Unique => AttrKind::Unique,
            Attribute::CompositeKey => AttrKind::CompositeKey,
            Attribute::Default(_) => AttrKind::Default,
            Attribute::ForeignKey(_) => AttrKind::ForeignKey,
            Attribute::Param(_) => AttrKind::Param,
            Attribute::CteParams(_) => AttrKind::CteParams,
        }
    }
}

/// The number of annotations of kind `k`, and the index of the first one.
pub fn find_attrs(attrs: &Vec<Attribute>, k: AttrKind) -> (r: (usize, usize))
    ensures
        r.0 == payloads_of(attrs@, k).len(),
        r.0 > 0 ==> r.1 < attrs@.len() && attr_kind(attrs@[r.1 as int]) == k && attr_payload(
            attrs@[r.1 as int],
        ) == payloads_of(attrs@, k)[0],
{
    let mut count: usize = 0;
    let mut first: usize = 0;
    let mut i: usize = 0;
    while i < attrs.len()
        invariant
            i <= attrs@.len(),
            count <= i,
            count == payloads_of(attrs@.take(i as int), k).len(),
            count > 0 ==> first < i && attr_kind(attrs@[first as int]) == k && attr_payload(
                attrs@[first as int],
            ) == payloads_of(attrs@.take(i as int), k)[0],
        decreases attrs@.len() - i,
    {
        assert(attrs@.take(i + 1).drop_last() =~= attrs@.take(i as int));
        if attrs[i].kind() == k {
            if count == 0 {
                first = i;
            }
            count = count + 1;
        }
        i = i + 1;
    }
    assert(attrs@.take(attrs@.len() as int) =~= attrs@);
    (count, first)
}

/// The payload of an annotation that carries one.
pub fn payload(a: &Attribute) -> (r: Option<&Vec<Token>>)
    ensures
        r matches Some(t) ==> t@ == attr_payload(*a),
        r is None <==> (a is PrimaryKey || a is Unique || a is CompositeKey),
{
    match a {
        Attribute::Default(t) => Some(t),
        Attribute::ForeignKey(t) => Some(t),
        Attribute::Param(t) => Some(t),
        Attribute::CteParams(t) => Some(t),
        _ => None,
    }
}

} // verus!
