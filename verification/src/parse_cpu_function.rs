//! The plain form of a function body: the body as it was written, with each
//! call of an imported function redirected to the plain form of that
//! function. This is what runs once for each cell of the grid.

use vstd::prelude::*;
use crate::syntax::{Block, Expr, FieldValue, Lit, Member, Pat, Path, Stmt, Type};
use crate::tables::{find_keyed, position_keyed, Keyed};

verus! {

/// The walk that redirects calls.
pub struct ParseCPUfn {
    /// Functions that `use path;` names, by that path.
    pub known_functions: Vec<Keyed<Path>>,
}

/// Two types that read the same.
pub open spec fn same_type(a: Type, b: Type) -> bool
    decreases a,
{
    match (a, b) {
        (Type::Path(p, x), Type::Path(q, y)) => p.key() == q.key() && x.len() == y.len()
            && forall|i: int| 0 <= i < x.len() ==> same_type(x[i], #[trigger] y[i]),
        (Type::Reference { mutable: m, elem: e }, Type::Reference { mutable: n, elem: f }) => m
            == n && same_type(*e, *f),
        (Type::Other, Type::Other) => true,
        _ => false,
    }
}

/// Whether `out` is `e` with every call of an imported function redirected:
/// where the path of a call is one of `functions`, `out` calls `cpu` under the
/// path that the import stands for, with the types that the call gives to
/// the function; everything else reads as in `e`.
pub open spec fn cpu_expr(functions: Seq<Keyed<Path>>, e: Expr, out: Expr) -> bool
    decreases e, 0nat,
{
    match (e, out) {
        (Expr::Call { func, generics, args }, Expr::Call { func: f, generics: g, args: a }) => {
            cpu_callee(functions, *func, *f) && generics.len() == g.len() && (forall|i: int|
                0 <= i < generics.len() ==> same_type(generics[i], #[trigger] g[i])) && cpu_exprs(
                functions,
                args,
                a,
            )
        },
        (
            Expr::MethodCall { receiver, method, args },
            Expr::MethodCall { receiver: r, method: m, args: a },
        ) => cpu_expr(functions, *receiver, *r) && method == m && cpu_exprs(functions, args, a),
        (Expr::Assign { left, right }, Expr::Assign { left: l, right: r }) => cpu_expr(
            functions,
            *left,
            *l,
        ) && cpu_expr(functions, *right, *r),
        (Expr::Binary { op, left, right }, Expr::Binary { op: o, left: l, right: r }) => op == o
            && cpu_expr(functions, *left, *l) && cpu_expr(functions, *right, *r),
        (
            Expr::If { cond, then_branch, else_branch },
            Expr::If { cond: c, then_branch: t, else_branch: f },
        ) => cpu_expr(functions, *cond, *c) && cpu_block(functions, then_branch, t) && match (
            else_branch,
            f,
        ) {
            (Some(x), Some(y)) => cpu_expr(functions, *x, *y),
            (None, None) => true,
            _ => false,
        },
        (Expr::Index { expr, index }, Expr::Index { expr: x, index: i }) => cpu_expr(
            functions,
            *expr,
            *x,
        ) && cpu_expr(functions, *index, *i),
        (Expr::Lit(a), Expr::Lit(b)) => a == b,
        (Expr::Path(p), Expr::Path(q)) => p.key() == q.key(),
        (Expr::Field { base, member }, Expr::Field { base: b, member: m }) => cpu_expr(
            functions,
            *base,
            *b,
        ) && member == m,
        (Expr::Struct { path, fields }, Expr::Struct { path: p, fields: f }) => path.key()
            == p.key() && fields.len() == f.len() && forall|i: int|
            0 <= i < fields.len() ==> fields[i].member == (#[trigger] f[i]).member && cpu_expr(
                functions,
                fields[i].expr,
                f[i].expr,
            ),
        (Expr::Range { start, end }, Expr::Range { start: s, end: n }) => (match (start, s) {
            (Some(x), Some(y)) => cpu_expr(functions, *x, *y),
            (None, None) => true,
            _ => false,
        }) && (match (end, n) {
            (Some(x), Some(y)) => cpu_expr(functions, *x, *y),
            (None, None) => true,
            _ => false,
        }),
        (Expr::Cast { expr, ty }, Expr::Cast { expr: x, ty: t }) => cpu_expr(functions, *expr, *x)
            && same_type(ty, t),
        (Expr::Reference(x), Expr::Reference(y)) => cpu_expr(functions, *x, *y),
        (Expr::Paren(x), Expr::Paren(y)) => cpu_expr(functions, *x, *y),
        (Expr::ForLoop { pat, expr, body }, Expr::ForLoop { pat: p, expr: x, body: b }) => pat
            == p && cpu_expr(functions, *expr, *x) && cpu_block(functions, body, b),
        (Expr::Block(a), Expr::Block(b)) => cpu_block(functions, a, b),
        (Expr::Return(a), Expr::Return(b)) => match (a, b) {
            (Some(x), Some(y)) => cpu_expr(functions, *x, *y),
            (None, None) => true,
            _ => false,
        },
        (Expr::Other, Expr::Other) => true,
        _ => false,
    }
}

/// The callee of a call: the plain form of an imported function, or what
/// stood there.
pub open spec fn cpu_callee(functions: Seq<Keyed<Path>>, func: Expr, out: Expr) -> bool
    decreases func, 1nat,
{
    match func {
        Expr::Path(p) => match find_keyed(functions, p.key()) {
            Some(i) => out matches Expr::Path(q) && q.key() == (
                functions[i].value.global,
                functions[i].value.names().push("cpu"@),
            ),
            None => cpu_expr(functions, func, out),
        },
        _ => cpu_expr(functions, func, out),
    }
}

/// The arguments of a call, one by one.
pub open spec fn cpu_exprs(functions: Seq<Keyed<Path>>, args: Vec<Expr>, out: Vec<Expr>) -> bool
    decreases args, 0nat,
{
    args.len() == out.len() && forall|i: int|
        0 <= i < args.len() ==> cpu_expr(functions, args[i], #[trigger] out[i])
}

/// A statement of the body.
pub open spec fn cpu_stmt(functions: Seq<Keyed<Path>>, s: Stmt, out: Stmt) -> bool
    decreases s, 0nat,
{
    match (s, out) {
        (Stmt::Local { pat, init }, Stmt::Local { pat: p, init: i }) => pat == p && match (
            init,
            i,
        ) {
            (Some(x), Some(y)) => cpu_expr(functions, x, y),
            (None, None) => true,
            _ => false,
        },
        (Stmt::Expr(e, semi), Stmt::Expr(x, s2)) => semi == s2 && cpu_expr(functions, e, x),
        (Stmt::Other, Stmt::Other) => true,
        _ => false,
    }
}

/// The statements of a block, one by one.
pub open spec fn cpu_block(functions: Seq<Keyed<Path>>, b: Block, out: Block) -> bool
    decreases b, 0nat,
{
    b.stmts.len() == out.stmts.len() && forall|i: int|
        0 <= i < b.stmts.len() ==> cpu_stmt(functions, b.stmts[i], #[trigger] out.stmts[i])
}

/// Whether two types read the same.
pub fn types_match(a: &Type, b: &Type) -> (r: bool)
    ensures
        r == same_type(*a, *b),
    decreases a, 1nat,
{
    match (a, b) {
        (Type::Path(p, x), Type::Path(q, y)) => {
            if !p.is(q) || x.len() != y.len() {
                false
            } else {
                all_match(x, y, 0)
            }
        },
        (Type::Reference { mutable: m, elem: e }, Type::Reference { mutable: n, elem: f }) => {
            *m == *n && types_match(e, f)
        },
        (Type::Other, Type::Other) => true,
        _ => false,
    }
}

/// Whether the types from `from` on read the same, one by one.
pub fn all_match(x: &Vec<Type>, y: &Vec<Type>, from: usize) -> (r: bool)
    requires
        x.len() == y.len(),
        from <= x.len(),
    ensures
        r == (forall|i: int| from <= i < x.len() ==> same_type(x[i], #[trigger] y[i])),
    decreases x, x.len() - from,
{
    if from >= x.len() {
        true
    } else {
        if !types_match(&x[from], &y[from]) {
            false
        } else {
            all_match(x, y, from + 1)
        }
    }
}

/// A copy of a type.
pub fn copy_type(ty: &Type) -> (r: Type)
    ensures
        same_type(*ty, r),
    decreases ty, 1nat,
{
    match ty {
        Type::Path(path, arguments) => Type::Path(
            path.duplicate(),
            copy_types(arguments, 0, Vec::new()),
        ),
        Type::Reference { mutable, elem } => Type::Reference {
            mutable: *mutable,
            elem: Box::new(copy_type(elem)),
        },
        Type::Other => Type::Other,
    }
}

/// Copies of the types from `from` on, added to `done`.
pub fn copy_types(types: &Vec<Type>, from: usize, done: Vec<Type>) -> (r: Vec<Type>)
    requires
        done.len() == from,
        from <= types.len(),
        forall|i: int| 0 <= i < from ==> same_type(types[i], #[trigger] done[i]),
    ensures
        r.len() == types.len(),
        forall|i: int| 0 <= i < types.len() ==> same_type(types[i], #[trigger] r[i]),
    decreases types, types.len() - from,
{
    if from >= types.len() {
        done
    } else {
        let mut done = done;
        done.push(copy_type(&types[from]));
        copy_types(types, from + 1, done)
    }
}

pub fn copy_lit(lit: &Lit) -> (r: Lit)
    ensures
        r == *lit,
{
    Lit { digits: lit.digits.clone(), suffix: lit.suffix.clone(), float: lit.float }
}

pub fn copy_pat(pat: &Pat) -> (r: Pat)
    ensures
        r == *pat,
{
    match pat {
        Pat::Ident(name) => Pat::Ident(name.clone()),
        Pat::Other => Pat::Other,
    }
}

pub fn copy_member(member: &Member) -> (r: Member)
    ensures
        r == *member,
{
    match member {
        Member::Named(name) => Member::Named(name.clone()),
        Member::Unnamed => Member::Unnamed,
    }
}

impl ParseCPUfn {
    /// The path `path::cpu`.
    pub fn cpu_path(path: &Path) -> (r: Path)
        ensures
            r.key() == (path.global, path.names().push("cpu"@)),
    {
        let mut out = path.duplicate();
        out.segments.push("cpu".to_owned());
        assert(out.names() =~= path.names().push("cpu"@));
        out
    }

    /// The callee of a call in the plain form.
    pub fn fold_callee(&self, func: &Expr) -> (r: Expr)
        ensures
            cpu_callee(self.known_functions@, *func, r),
        decreases func, 1nat,
    {
        match func {
            Expr::Path(p) => match position_keyed(&self.known_functions, p) {
                Some(i) => Expr::Path(Self::cpu_path(&self.known_functions[i].value)),
                None => self.fold_expr(func),
            },
            _ => self.fold_expr(func),
        }
    }

    /// The plain form of an optional expression.
    pub fn fold_optional(&self, e: &Option<Box<Expr>>) -> (r: Option<Box<Expr>>)
        ensures
            match (*e, r) {
                (Some(x), Some(y)) => cpu_expr(self.known_functions@, *x, *y),
                (None, None) => true,
                _ => false,
            },
        decreases e, 1nat,
    {
        match e {
            Some(x) => Some(Box::new(self.fold_expr(x))),
            None => None,
        }
    }

    /// The plain form of an expression.
    pub fn fold_expr(&self, e: &Expr) -> (r: Expr)
        ensures
            cpu_expr(self.known_functions@, *e, r),
        decreases e, 0nat,
    {
        match e {
            Expr::Call { func, generics, args } => Expr::Call {
                func: Box::new(self.fold_callee(func)),
                generics: copy_types(generics, 0, Vec::new()),
                args: self.fold_exprs(args, 0, Vec::new()),
            },
            Expr::MethodCall { receiver, method, args } => Expr::MethodCall {
                receiver: Box::new(self.fold_expr(receiver)),
                method: method.clone(),
                args: self.fold_exprs(args, 0, Vec::new()),
            },
            Expr::Assign { left, right } => Expr::Assign {
                left: Box::new(self.fold_expr(left)),
                right: Box::new(self.fold_expr(right)),
            },
            Expr::Binary { op, left, right } => Expr::Binary {
                op: *op,
                left: Box::new(self.fold_expr(left)),
                right: Box::new(self.fold_expr(right)),
            },
            Expr::If { cond, then_branch, else_branch } => Expr::If {
                cond: Box::new(self.fold_expr(cond)),
                then_branch: self.fold_block(then_branch),
                else_branch: self.fold_optional(else_branch),
            },
            Expr::Index { expr, index } => Expr::Index {
                expr: Box::new(self.fold_expr(expr)),
                index: Box::new(self.fold_expr(index)),
            },
            Expr::Lit(lit) => Expr::Lit(copy_lit(lit)),
            Expr::Path(path) => Expr::Path(path.duplicate()),
            Expr::Field { base, member } => Expr::Field {
                base: Box::new(self.fold_expr(base)),
                member: copy_member(member),
            },
            Expr::Struct { path, fields } => Expr::Struct {
                path: path.duplicate(),
                fields: self.fold_fields(fields, 0, Vec::new()),
            },
            Expr::Range { start, end } => Expr::Range {
                start: self.fold_optional(start),
                end: self.fold_optional(end),
            },
            Expr::Cast { expr, ty } => Expr::Cast {
                expr: Box::new(self.fold_expr(expr)),
                ty: copy_type(ty),
            },
            Expr::Reference(x) => Expr::Reference(Box::new(self.fold_expr(x))),
            Expr::Paren(x) => Expr::Paren(Box::new(self.fold_expr(x))),
            Expr::ForLoop { pat, expr, body } => Expr::ForLoop {
                pat: copy_pat(pat),
                expr: Box::new(self.fold_expr(expr)),
                body: self.fold_block(body),
            },
            Expr::Block(b) => Expr::Block(self.fold_block(b)),
            Expr::Return(value) => Expr::Return(self.fold_optional(value)),
            Expr::Other => Expr::Other,
        }
    }

    /// The plain form of the expressions from `from` on, added to `done`.
    pub fn fold_exprs(&self, args: &Vec<Expr>, from: usize, done: Vec<Expr>) -> (r: Vec<Expr>)
        requires
            done.len() == from,
            from <= args.len(),
            forall|i: int|
                0 <= i < from ==> cpu_expr(self.known_functions@, args[i], #[trigger] done[i]),
        ensures
            cpu_exprs(self.known_functions@, *args, r),
        decreases args, args.len() - from,
    {
        if from >= args.len() {
            done
        } else {
            let mut done = done;
            done.push(self.fold_expr(&args[from]));
            self.fold_exprs(args, from + 1, done)
        }
    }

    /// The plain form of the fields of a record literal from `from` on.
    pub fn fold_fields(&self, fields: &Vec<FieldValue>, from: usize, done: Vec<FieldValue>) -> (r:
        Vec<FieldValue>)
        requires
            done.len() == from,
            from <= fields.len(),
            forall|i: int|
                0 <= i < from ==> fields[i].member == (#[trigger] done[i]).member && cpu_expr(
                    self.known_functions@,
                    fields[i].expr,
                    done[i].expr,
                ),
        ensures
            r.len() == fields.len(),
            forall|i: int|
                0 <= i < fields.len() ==> fields[i].member == (#[trigger] r[i]).member && cpu_expr(
                    self.known_functions@,
                    fields[i].expr,
                    r[i].expr,
                ),
        decreases fields, fields.len() - from,
    {
        if from >= fields.len() {
            done
        } else {
            let mut done = done;
            done.push(
                FieldValue {
                    member: copy_member(&fields[from].member),
                    expr: self.fold_expr(&fields[from].expr),
                },
            );
            self.fold_fields(fields, from + 1, done)
        }
    }

    /// The plain form of a statement.
    pub fn fold_stmt(&self, s: &Stmt) -> (r: Stmt)
        ensures
            cpu_stmt(self.known_functions@, *s, r),
        decreases s, 0nat,
    {
        match s {
            Stmt::Local { pat, init } => Stmt::Local {
                pat: copy_pat(pat),
                init: match init {
                    Some(e) => Some(self.fold_expr(e)),
                    None => None,
                },
            },
            Stmt::Expr(e, semi) => Stmt::Expr(self.fold_expr(e), *semi),
            Stmt::Other => Stmt::Other,
        }
    }

    /// The plain form of the statements from `from` on, added to `done`.
    pub fn fold_stmts(&self, stmts: &Vec<Stmt>, from: usize, done: Vec<Stmt>) -> (r: Vec<Stmt>)
        requires
            done.len() == from,
            from <= stmts.len(),
            forall|i: int|
                0 <= i < from ==> cpu_stmt(self.known_functions@, stmts[i], #[trigger] done[i]),
        ensures
            r.len() == stmts.len(),
            forall|i: int|
                0 <= i < stmts.len() ==> cpu_stmt(self.known_functions@, stmts[i], #[trigger] r[i]),
        decreases stmts, stmts.len() - from,
    {
        if from >= stmts.len() {
            done
        } else {
            let mut done = done;
            done.push(self.fold_stmt(&stmts[from]));
            self.fold_stmts(stmts, from + 1, done)
        }
    }

    /// The plain form of a block.
    pub fn fold_block(&self, b: &Block) -> (r: Block)
        ensures
            cpu_block(self.known_functions@, *b, r),
        decreases b, 0nat,
    {
        Block { stmts: self.fold_stmts(&b.stmts, 0, Vec::new()) }
    }
}

} // verus!
