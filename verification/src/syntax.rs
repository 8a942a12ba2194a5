//! The shape of a function definition, as far as lowering reads it.
//!
//! A front end that has parsed Rust source fills these types in; everything
//! it does not need to tell apart is an `Other`.

use vstd::prelude::*;

verus! {

/// A path such as `a::b::c` or `::a::b::c`: whether it starts with `::`, and
/// its segments.
#[derive(Debug, PartialEq, Eq)]
pub struct Path {
    /// Whether the path starts with `::`.
    pub global: bool,
    /// The segments as they read: the identifier of each, followed by
    /// its generic arguments where it gives any. The generic arguments of the
    /// last segment of a type or of a called function are kept beside the
    /// path, not in it. The paths of an attribute give none.
    pub segments: Vec<String>,
}

#[derive(Debug, PartialEq, Eq)]
pub enum Type {
    /// A path with the generic arguments of its last segment.
    Path(Path, Vec<Type>),
    Reference { mutable: bool, elem: Box<Type> },
    Other,
}

#[derive(Debug, PartialEq, Eq)]
pub enum Pat {
    Ident(String),
    Other,
}

/// A literal: its digits or word, and the type suffix, empty where it has none.
#[derive(Debug, PartialEq, Eq)]
pub struct Lit {
    pub digits: String,
    pub suffix: String,
    pub float: bool,
}

#[derive(Clone, Copy, Debug, PartialEq, Eq, Structural)]
pub enum BinOp {
    Add,
    Sub,
    Mul,
    Div,
    Ge,
    Gt,
    Le,
    Lt,
    Eq,
    Ne,
    And,
    Or,
    Other,
}

#[derive(Debug, PartialEq, Eq)]
pub enum Member {
    Named(String),
    Unnamed,
}

#[derive(Debug, PartialEq, Eq)]
pub struct FieldValue {
    pub member: Member,
    pub expr: Expr,
}

#[derive(Debug, PartialEq, Eq)]
pub enum Expr {
    Assign { left: Box<Expr>, right: Box<Expr> },
    Binary { op: BinOp, left: Box<Expr>, right: Box<Expr> },
    MethodCall { receiver: Box<Expr>, method: String, args: Vec<Expr> },
    /// A call. `generics` holds the types that the call gives to the
    /// function after its path, as in `f::<T>(x)`.
    Call { func: Box<Expr>, generics: Vec<Type>, args: Vec<Expr> },
    If { cond: Box<Expr>, then_branch: Block, else_branch: Option<Box<Expr>> },
    Index { expr: Box<Expr>, index: Box<Expr> },
    Lit(Lit),
    Path(Path),
    Field { base: Box<Expr>, member: Member },
    Struct { path: Path, fields: Vec<FieldValue> },
    Range { start: Option<Box<Expr>>, end: Option<Box<Expr>> },
    Cast { expr: Box<Expr>, ty: Type },
    Reference(Box<Expr>),
    Paren(Box<Expr>),
    ForLoop { pat: Pat, expr: Box<Expr>, body: Block },
    Block(Block),
    Return(Option<Box<Expr>>),
    Other,
}

#[derive(Debug, PartialEq, Eq)]
pub enum Stmt {
    Local { pat: Pat, init: Option<Expr> },
    /// An expression, and whether a semicolon follows it.
    Expr(Expr, bool),
    Other,
}

#[derive(Debug, PartialEq, Eq)]
pub struct Block {
    pub stmts: Vec<Stmt>,
}

#[derive(Debug, PartialEq, Eq)]
pub enum GenericParam {
    Type(String),
    Lifetime,
    Const,
}

#[derive(Debug, PartialEq, Eq)]
pub enum FnArg {
    Receiver,
    Typed { pat: Pat, ty: Type },
}

#[derive(Debug, PartialEq, Eq)]
pub struct Signature {
    pub ident: String,
    pub generics: Vec<GenericParam>,
    pub inputs: Vec<FnArg>,
    pub output: Option<Type>,
}

#[derive(Debug, PartialEq, Eq)]
pub struct ItemFn {
    pub sig: Signature,
    pub block: Block,
}

#[derive(Debug, PartialEq, Eq)]
pub enum Item {
    Fn(ItemFn),
    Other,
}

impl Path {
    /// The segments of the path as plain text.
    pub open spec fn names(self) -> Seq<Seq<char>> {
        self.segments@.map_values(|s: String| s@)
    }

    /// What a path is found by: whether it starts with `::`, and its
    /// segments.
    pub open spec fn key(self) -> (bool, Seq<Seq<char>>) {
        (self.global, self.names())
    }

    /// Two paths are the same when both or neither start with `::` and
    /// their segments are the same.
    pub open spec fn same(self, other: Path) -> bool {
        self.key() == other.key()
    }

    /// The path's only identifier, where it is one identifier and nothing
    /// else.
    pub open spec fn ident(self) -> Option<String> {
        if !self.global && self.segments@.len() == 1 {
            Some(self.segments@[0])
        } else {
            None
        }
    }

    pub fn get_ident(&self) -> (r: Option<&String>)
        ensures
            match r {
                Some(s) => self.ident() == Some(*s),
                None => self.ident() is None,
            },
    {
        if !self.global && self.segments.len() == 1 {
            Some(&self.segments[0])
        } else {
            None
        }
    }

    /// A path of one identifier.
    pub fn from_ident(name: &str) -> (r: Path)
        ensures
            r.key() == (false, seq![name@]),
    {
        let mut segments: Vec<String> = Vec::new();
        segments.push(name.to_owned());
        let r = Path { global: false, segments };
        assert(r.names() =~= seq![name@]);
        r
    }

    pub fn is(&self, other: &Path) -> (r: bool)
        ensures
            r == self.same(*other),
    {
        if self.global != other.global {
            return false;
        }
        if self.segments.len() != other.segments.len() {
            assert(self.names().len() != other.names().len());
            return false;
        }
        let mut i: usize = 0;
        while i < self.segments.len()
            invariant
                i <= self.segments.len(),
                self.segments.len() == other.segments.len(),
                forall|j: int| 0 <= j < i ==> self.names()[j] == other.names()[j],
            decreases self.segments.len() - i,
        {
            if self.segments[i] != other.segments[i] {
                assert(self.names()[i as int] != other.names()[i as int]);
                return false;
            }
            i += 1;
        }
        assert(self.names() =~= other.names());
        true
    }

    pub fn duplicate(&self) -> (r: Path)
        ensures
            r.key() == self.key(),
            r.global == self.global,
            r.segments@ == self.segments@,
    {
        let mut segments: Vec<String> = Vec::new();
        let mut i: usize = 0;
        while i < self.segments.len()
            invariant
                i <= self.segments.len(),
                segments@ == self.segments@.take(i as int),
            decreases self.segments.len() - i,
        {
            segments.push(self.segments[i].clone());
            assert(segments@ =~= self.segments@.take(i + 1));
            i += 1;
        }
        assert(self.segments@.take(i as int) =~= self.segments@);
        Path { global: self.global, segments }
    }
}

} // verus!
