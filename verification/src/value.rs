//! The values that the analysis of a module computes for its expressions.
use std::sync::Arc;
use vstd::prelude::*;

verus! {

/// A constant of the analysed program.
#[derive(Debug, PartialEq, Eq, Hash)]
pub enum ConstantValue {
    Str(String),
    Num(i64),
    /// Any other constant, named by the analysis that owns it.
    Other(u64),
}

/// The mathematical value of a [`ConstantValue`].
pub enum ConstantValueView {
    Str(Seq<char>),
    Num(i64),
    Other(u64),
}

/// A variable that no scope of the analysed module declares.
#[derive(Clone, Copy, Debug, PartialEq, Eq, Hash, Structural)]
pub enum FreeVarKind {
    Dirname,
    Require,
    Import,
    Other(u64),
}

/// A module of the platform.
#[derive(Clone, Copy, Debug, PartialEq, Eq, Hash, Structural)]
pub enum WellKnownObjectKind {
    PathModule,
    FsModule,
    ChildProcess,
}

/// A function of the platform whose calls refer to other assets. The two methods carry their
/// names.
#[derive(Debug, PartialEq, Eq, Hash)]
pub enum WellKnownFunctionKind {
    Import,
    Require,
    RequireResolve,
    FsReadMethod(String),
    PathJoin,
    ChildProcessSpawnMethod(String),
    ChildProcessFork,
}

/// The mathematical value of a [`WellKnownFunctionKind`].
pub enum WellKnownFunctionKindView {
    Import,
    Require,
    RequireResolve,
    FsReadMethod(Seq<char>),
    PathJoin,
    ChildProcessSpawnMethod(Seq<char>),
    ChildProcessFork,
}

/// A value, as far as it is read. `Unknown` carries what could not be evaluated, and why.
/// `Other` stands for every other kind, and carries the number under which the analysis keeps it.
#[derive(Debug, PartialEq, Eq, Hash)]
pub enum JsValue {
    Constant(ConstantValue),
    Alternatives(Vec<JsValue>),
    FreeVar(FreeVarKind),
    Call(Box<JsValue>, Vec<JsValue>),
    Member(Box<JsValue>, Box<JsValue>),
    Module(String),
    WellKnownObject(WellKnownObjectKind),
    WellKnownFunction(WellKnownFunctionKind),
    Unknown(Option<Arc<JsValue>>, &'static str),
    Other(u64),
}

/// The mathematical value of a [`JsValue`].
pub enum JsValueView {
    Constant(ConstantValueView),
    Alternatives(Seq<JsValueView>),
    FreeVar(FreeVarKind),
    Call(Box<JsValueView>, Seq<JsValueView>),
    Member(Box<JsValueView>, Box<JsValueView>),
    Module(Seq<char>),
    WellKnownObject(WellKnownObjectKind),
    WellKnownFunction(WellKnownFunctionKindView),
    Unknown(Option<Box<JsValueView>>, Seq<char>),
    Other(u64),
}

impl DeepView for ConstantValue {
    type V = ConstantValueView;

    open spec fn deep_view(&self) -> ConstantValueView {
        match self {
            ConstantValue::Str(text) => ConstantValueView::Str(text@),
            ConstantValue::Num(number) => ConstantValueView::Num(*number),
            ConstantValue::Other(id) => ConstantValueView::Other(*id),
        }
    }
}

impl DeepView for WellKnownFunctionKind {
    type V = WellKnownFunctionKindView;

    open spec fn deep_view(&self) -> WellKnownFunctionKindView {
        match self {
            WellKnownFunctionKind::Import => WellKnownFunctionKindView::Import,
            WellKnownFunctionKind::Require => WellKnownFunctionKindView::Require,
            WellKnownFunctionKind::RequireResolve => WellKnownFunctionKindView::RequireResolve,
            WellKnownFunctionKind::FsReadMethod(name) => WellKnownFunctionKindView::FsReadMethod(
                name@,
            ),
            WellKnownFunctionKind::PathJoin => WellKnownFunctionKindView::PathJoin,
            WellKnownFunctionKind::ChildProcessSpawnMethod(
                name,
            ) => WellKnownFunctionKindView::ChildProcessSpawnMethod(name@),
            WellKnownFunctionKind::ChildProcessFork => WellKnownFunctionKindView::ChildProcessFork,
        }
    }
}

/// The mathematical value of `value`.
pub open spec fn value_view(value: JsValue) -> JsValueView
    decreases value,
{
    match value {
        JsValue::Constant(constant) => JsValueView::Constant(constant.deep_view()),
        JsValue::Alternatives(alts) => JsValueView::Alternatives(values_view(alts@)),
        JsValue::FreeVar(kind) => JsValueView::FreeVar(kind),
        JsValue::Call(callee, args) => JsValueView::Call(
            Box::new(value_view(*callee)),
            values_view(args@),
        ),
        JsValue::Member(obj, prop) => JsValueView::Member(
            Box::new(value_view(*obj)),
            Box::new(value_view(*prop)),
        ),
        JsValue::Module(name) => JsValueView::Module(name@),
        JsValue::WellKnownObject(kind) => JsValueView::WellKnownObject(kind),
        JsValue::WellKnownFunction(kind) => JsValueView::WellKnownFunction(kind.deep_view()),
        JsValue::Unknown(inner, reason) => JsValueView::Unknown(
            match inner {
                Some(inner) => Some(Box::new(value_view(*inner))),
                None => None,
            },
            reason@,
        ),
        JsValue::Other(id) => JsValueView::Other(id),
    }
}

/// The mathematical values of `values`.
pub open spec fn values_view(values: Seq<JsValue>) -> Seq<JsValueView>
    decreases values,
{
    Seq::new(
        values.len(),
        |i: int|
            if 0 <= i < values.len() {
                value_view(values[i])
            } else {
                arbitrary()
            },
    )
}

impl DeepView for JsValue {
    type V = JsValueView;

    open spec fn deep_view(&self) -> JsValueView {
        value_view(*self)
    }
}

/// The view of a list of values is the list of their views.
pub proof fn lemma_values_view(values: Vec<JsValue>)
    ensures
        values_view(values@) == values.deep_view(),
{
    assert(values_view(values@) =~= values.deep_view());
}

/// The view of alternatives holds the view of each.
pub proof fn lemma_alternatives_view(alts: Vec<JsValue>)
    ensures
        value_view(JsValue::Alternatives(alts)) == JsValueView::Alternatives(alts.deep_view()),
{
    lemma_values_view(alts);
}

/// The view of a call holds the views of its callee and of its arguments.
pub proof fn lemma_call_view(callee: Box<JsValue>, args: Vec<JsValue>)
    ensures
        value_view(JsValue::Call(callee, args)) == JsValueView::Call(
            Box::new(value_view(*callee)),
            args.deep_view(),
        ),
{
    lemma_values_view(args);
}

impl Clone for ConstantValue {
    fn clone(&self) -> (res: Self)
        ensures
            res == *self,
    {
        match self {
            ConstantValue::Str(text) => ConstantValue::Str(text.clone()),
            ConstantValue::Num(number) => ConstantValue::Num(*number),
            ConstantValue::Other(id) => ConstantValue::Other(*id),
        }
    }
}

impl Clone for WellKnownFunctionKind {
    fn clone(&self) -> (res: Self)
        ensures
            res == *self,
    {
        match self {
            WellKnownFunctionKind::Import => WellKnownFunctionKind::Import,
            WellKnownFunctionKind::Require => WellKnownFunctionKind::Require,
            WellKnownFunctionKind::RequireResolve => WellKnownFunctionKind::RequireResolve,
            WellKnownFunctionKind::FsReadMethod(name) => WellKnownFunctionKind::FsReadMethod(
                name.clone(),
            ),
            WellKnownFunctionKind::PathJoin => WellKnownFunctionKind::PathJoin,
            WellKnownFunctionKind::ChildProcessSpawnMethod(
                name,
            ) => WellKnownFunctionKind::ChildProcessSpawnMethod(name.clone()),
            WellKnownFunctionKind::ChildProcessFork => WellKnownFunctionKind::ChildProcessFork,
        }
    }
}

fn clone_value(value: &JsValue) -> (res: JsValue)
    ensures
        res.deep_view() == value.deep_view(),
    decreases value,
{
    match value {
        JsValue::Constant(constant) => JsValue::Constant(constant.clone()),
        JsValue::Alternatives(alts) => {
            let copies = clone_values(alts);
            proof {
                lemma_values_view(*alts);
                lemma_values_view(copies);
            }
            JsValue::Alternatives(copies)
        },
        JsValue::FreeVar(kind) => JsValue::FreeVar(*kind),
        JsValue::Call(callee, args) => {
            let copies = clone_values(args);
            proof {
                lemma_values_view(*args);
                lemma_values_view(copies);
            }
            JsValue::Call(Box::new(clone_value(callee)), copies)
        },
        JsValue::Member(obj, prop) => JsValue::Member(
            Box::new(clone_value(obj)),
            Box::new(clone_value(prop)),
        ),
        JsValue::Module(name) => JsValue::Module(name.clone()),
        JsValue::WellKnownObject(kind) => JsValue::WellKnownObject(*kind),
        JsValue::WellKnownFunction(kind) => JsValue::WellKnownFunction(kind.clone()),
        JsValue::Unknown(inner, reason) => {
            let inner = match inner {
                Some(inner) => Some(Arc::new(clone_value(inner))),
                None => None,
            };
            JsValue::Unknown(inner, *reason)
        },
        JsValue::Other(id) => JsValue::Other(*id),
    }
}

/// Copies a list of values.
pub fn clone_values(values: &Vec<JsValue>) -> (res: Vec<JsValue>)
    ensures
        res.deep_view() == values.deep_view(),
    decreases values,
{
    let mut res: Vec<JsValue> = Vec::new();
    for i in 0..values.len()
        invariant
            res@.len() == i,
            forall|j: int| 0 <= j < i ==> #[trigger] res@[j].deep_view() == values@[j].deep_view(),
    {
        res.push(clone_value(&values[i]));
    }
    assert(res.deep_view() =~= values.deep_view());
    res
}

impl Clone for JsValue {
    fn clone(&self) -> (res: Self)
        ensures
            res.deep_view() == self.deep_view(),
    {
        clone_value(self)
    }
}

} // verus!
