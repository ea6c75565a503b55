//! Naming what an expression refers to without running it.
use crate::ast::{Expr, Lit, MemberProp};
use vstd::hash_map::StringHashMap;
use vstd::prelude::*;

verus! {

/// What an expression is known to be.
#[derive(Debug, PartialEq, Eq, Hash)]
pub enum StaticExpr {
    /// A string.
    String(String),
    /// A path of properties that starts at a variable which no import binds.
    FreeVar(Vec<String>),
    /// A module, and a path of properties into what it exports.
    ImportedVar(String, Vec<String>),
    /// Anything else.
    Unknown,
}

/// The mathematical value of a [`StaticExpr`].
pub enum StaticExprView {
    String(Seq<char>),
    FreeVar(Seq<Seq<char>>),
    ImportedVar(Seq<char>, Seq<Seq<char>>),
    Unknown,
}

impl DeepView for StaticExpr {
    type V = StaticExprView;

    open spec fn deep_view(&self) -> StaticExprView {
        match self {
            StaticExpr::String(text) => StaticExprView::String(text@),
            StaticExpr::FreeVar(path) => StaticExprView::FreeVar(path.deep_view()),
            StaticExpr::ImportedVar(module, path) => StaticExprView::ImportedVar(
                module@,
                path.deep_view(),
            ),
            StaticExpr::Unknown => StaticExprView::Unknown,
        }
    }
}

/// What the local names of a module's imports stand for: a module, and a path into it.
pub type ImportsView = Map<Seq<char>, (Seq<char>, Seq<Seq<char>>)>;

/// What `expr` is, where `imports` are the bindings in force.
pub open spec fn evaluated(imports: ImportsView, expr: Expr) -> StaticExprView
    decreases expr,
{
    match expr {
        Expr::Lit(Lit::Str(text)) => StaticExprView::String(text@),
        Expr::Ident(name) => if imports.contains_key(name@) {
            StaticExprView::ImportedVar(imports[name@].0, imports[name@].1)
        } else {
            StaticExprView::FreeVar(seq![name@])
        },
        Expr::Member(obj, prop) => extended(evaluated(imports, *obj), prop_name(imports, prop)),
        _ => StaticExprView::Unknown,
    }
}

/// The name that `prop` is known to have.
pub open spec fn prop_name(imports: ImportsView, prop: MemberProp) -> Option<Seq<char>>
    decreases prop,
{
    match prop {
        MemberProp::Ident(name) => Some(name@),
        MemberProp::PrivateName => None,
        MemberProp::Computed(expr) => match evaluated(imports, *expr) {
            StaticExprView::String(text) => Some(text),
            _ => None,
        },
    }
}

/// The property `name` of `base`.
pub open spec fn extended(base: StaticExprView, name: Option<Seq<char>>) -> StaticExprView {
    match (base, name) {
        (StaticExprView::FreeVar(path), Some(name)) => StaticExprView::FreeVar(path.push(name)),
        (StaticExprView::ImportedVar(module, path), Some(name)) => StaticExprView::ImportedVar(
            module,
            path.push(name),
        ),
        _ => StaticExprView::Unknown,
    }
}

/// Evaluates expressions under the imports of a module.
pub struct StaticAnalyser {
    pub imports: StringHashMap<(String, Vec<String>)>,
}

impl View for StaticAnalyser {
    type V = ImportsView;

    open spec fn view(&self) -> ImportsView {
        self.imports@.map_values(|import: (String, Vec<String>)| import.deep_view())
    }
}

impl Default for StaticAnalyser {
    /// An analyser that knows of no import.
    fn default() -> (res: Self)
        ensures
            res@ == ImportsView::empty(),
    {
        let res = StaticAnalyser { imports: StringHashMap::new() };
        assert(res@ =~= ImportsView::empty());
        res
    }
}

/// Copies a path.
fn copied_path(path: &Vec<String>) -> (res: Vec<String>)
    ensures
        res.deep_view() == path.deep_view(),
{
    let mut res: Vec<String> = Vec::new();
    for i in 0..path.len()
        invariant
            res@.len() == i,
            forall|j: int| 0 <= j < i ==> #[trigger] res@[j]@ == path@[j]@,
    {
        res.push(path[i].clone());
    }
    assert(res.deep_view() =~= path.deep_view());
    res
}

impl StaticAnalyser {
    /// Binds `local` to `path` in `module`, in place of what it was bound to before.
    pub fn bind(&mut self, local: String, module: String, path: Vec<String>)
        ensures
            final(self)@ == old(self)@.insert(local@, (module@, path.deep_view())),
    {
        let ghost before = self@;
        let ghost key = local@;
        let ghost import = (module@, path.deep_view());
        self.imports.insert(local, (module, path));
        assert(self@ =~= before.insert(key, import));
    }

    /// The name that `prop` is known to have.
    pub fn prop_to_name(&self, prop: &MemberProp) -> (res: Option<String>)
        ensures
            res.deep_view() == prop_name(self@, *prop),
        decreases prop,
    {
        match prop {
            MemberProp::Ident(name) => Some(name.clone()),
            MemberProp::PrivateName => None,
            MemberProp::Computed(expr) => match self.evaluate_expr(expr) {
                StaticExpr::String(text) => Some(text),
                _ => None,
            },
        }
    }

    /// What `expr` is known to be.
    pub fn evaluate_expr(&self, expr: &Expr) -> (res: StaticExpr)
        ensures
            res.deep_view() == evaluated(self@, *expr),
        decreases expr,
    {
        match expr {
            Expr::Lit(Lit::Str(text)) => StaticExpr::String(text.clone()),
            Expr::Ident(name) => match self.imports.get(name.as_str()) {
                Some((module, import)) => {
                    StaticExpr::ImportedVar(module.clone(), copied_path(import))
                },
                None => {
                    let path = vec![name.clone()];
                    assert(path.deep_view() =~= seq![name@]);
                    StaticExpr::FreeVar(path)
                },
            },
            Expr::Member(obj, prop) => match self.evaluate_expr(obj) {
                StaticExpr::FreeVar(mut path) => match self.prop_to_name(prop) {
                    Some(name) => {
                        let ghost before = path.deep_view();
                        let ghost last = name@;
                        path.push(name);
                        assert(path.deep_view() =~= before.push(last));
                        StaticExpr::FreeVar(path)
                    },
                    None => StaticExpr::Unknown,
                },
                StaticExpr::ImportedVar(module, mut path) => match self.prop_to_name(prop) {
                    Some(name) => {
                        let ghost before = path.deep_view();
                        let ghost last = name@;
                        path.push(name);
                        assert(path.deep_view() =~= before.push(last));
                        StaticExpr::ImportedVar(module, path)
                    },
                    None => StaticExpr::Unknown,
                },
                _ => StaticExpr::Unknown,
            },
            _ => StaticExpr::Unknown,
        }
    }
}

/// The identifier at which the member expression `expr` starts.
pub open spec fn root(expr: Expr) -> Option<Seq<char>>
    decreases expr,
{
    match expr {
        Expr::Ident(name) => Some(name@),
        Expr::Member(obj, _) => root(*obj),
        _ => None,
    }
}

/// The name of a property does not depend on the imports.
pub proof fn lemma_prop_name_needs_no_imports(
    imports: ImportsView,
    others: ImportsView,
    prop: MemberProp,
)
    ensures
        prop_name(imports, prop) == prop_name(others, prop),
{
    match prop {
        MemberProp::Computed(expr) => {
            lemma_only_literals_are_strings(imports, *expr);
            lemma_only_literals_are_strings(others, *expr);
        },
        _ => {},
    }
}

/// Only a string literal is known to be a string.
pub proof fn lemma_only_literals_are_strings(imports: ImportsView, expr: Expr)
    ensures
        evaluated(imports, expr) is String <==> (expr is Lit && expr->Lit_0 is Str),
        evaluated(imports, expr) is String ==> evaluated(imports, expr) == StaticExprView::String(
            expr->Lit_0->Str_0@,
        ),
{
}

/// What an expression is known to be depends on the imports only through what they bind its root
/// to.
pub proof fn lemma_only_root_is_looked_up(imports: ImportsView, others: ImportsView, expr: Expr)
    requires
        root(expr) matches Some(name) ==> {
            &&& imports.contains_key(name) == others.contains_key(name)
            &&& imports.contains_key(name) ==> imports[name] == others[name]
        },
    ensures
        evaluated(imports, expr) == evaluated(others, expr),
    decreases expr,
{
    match expr {
        Expr::Member(obj, prop) => {
            lemma_only_root_is_looked_up(imports, others, *obj);
            lemma_prop_name_needs_no_imports(imports, others, prop);
        },
        _ => {},
    }
}

/// A known path starts at the root of its expression: at the root itself where no import binds
/// it, and at what the import stands for where one does.
pub proof fn lemma_path_starts_at_root(imports: ImportsView, expr: Expr)
    ensures
        match evaluated(imports, expr) {
            StaticExprView::FreeVar(path) => {
                &&& root(expr) is Some
                &&& !imports.contains_key(root(expr)->0)
                &&& seq![root(expr)->0].is_prefix_of(path)
            },
            StaticExprView::ImportedVar(module, path) => {
                &&& root(expr) is Some
                &&& imports.contains_key(root(expr)->0)
                &&& imports[root(expr)->0].0 == module
                &&& imports[root(expr)->0].1.is_prefix_of(path)
            },
            _ => true,
        },
    decreases expr,
{
    match expr {
        Expr::Member(obj, prop) => {
            lemma_path_starts_at_root(imports, *obj);
        },
        _ => {},
    }
}

/// `obj["name"]` is known to be what `obj.name` is.
pub proof fn lemma_computed_name(imports: ImportsView, obj: Expr, name: String, key: Expr)
    requires
        key matches Expr::Lit(Lit::Str(text)) && text@ == name@,
    ensures
        evaluated(imports, Expr::Member(Box::new(obj), MemberProp::Computed(Box::new(key))))
            == evaluated(imports, Expr::Member(Box::new(obj), MemberProp::Ident(name))),
{
    reveal_with_fuel(evaluated, 3);
    reveal_with_fuel(prop_name, 3);
}

} // verus!
