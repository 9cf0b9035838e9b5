//! The tensor object system: semantic tensor-valued expressions with
//! order/dim metadata, checked constructors that refuse ill-shaped
//! combinations, and conservative symmetry inference.
//!
//! Scalar factors and the scalar entries of component-filled tensors are
//! symbolic expressions kept outside this library; a tensor expression
//! refers to each by a [`ScalarId`], equal ids standing for structurally
//! equal scalar expressions.

use vstd::prelude::*;
use std::rc::Rc;
use crate::error::{Error, ErrorModel};
use crate::text::{concat_str, decimal, decimal_string, str_eq};

verus! {

broadcast use vstd::std_specs::vec::axiom_vec_decreases_to_view;

/// Identifies a symbolic scalar expression; equal ids denote structurally
/// equal expressions.
pub type ScalarId = u64;

/// Declared properties of a tensor variable. Only `identity` and
/// `symmetric` take part in inference; the rest are carried as metadata.
#[derive(Debug, Clone, Copy, Default, PartialEq, Eq)]
pub struct TensorProperties {
    pub identity: bool,
    pub symmetric: bool,
    pub antisymmetric: bool,
    pub orthogonal: bool,
    pub isotropic: bool,
}

/// The index of a set element: a bound symbol (`lambda[a]`) or a literal
/// position (`N[1]`).
#[derive(Debug, Clone, PartialEq)]
pub enum SetIndex {
    Sym(String),
    Num(usize),
}

/// A semantic tensor-valued expression. Every node knows its order and
/// dim; the checked constructors refuse shape-incompatible operands.
#[derive(Debug, PartialEq)]
pub enum TensorExpr {
    /// A declared tensor variable, e.g. `Tensor("\bm F", order=2, dim=3)`.
    Var { name: String, latex: String, order: usize, dim: usize, props: TensorProperties },
    /// Transpose of a second-order tensor.
    Transpose(Rc<TensorExpr>),
    /// Inverse of a second-order tensor, `F^{-1}`.
    Inverse(Rc<TensorExpr>),
    /// Inverse transpose `F^{-T}`.
    InverseTranspose(Rc<TensorExpr>),
    /// Unevaluated derivative `∂ num / ∂ den`, of order
    /// `num.order() + den.order()`; `num_label` is a display label.
    Diff { num: Rc<TensorExpr>, den: Rc<TensorExpr>, num_label: Option<String> },
    /// Single contraction of second-order tensors, `A * B`.
    MatMul(Rc<TensorExpr>, Rc<TensorExpr>),
    /// Integer matrix power `A^n`, `n ≥ 2`.
    Power { base: Rc<TensorExpr>, exp: u32 },
    /// Tensor (outer) product `A ⊗ B`.
    Outer(Rc<TensorExpr>, Rc<TensorExpr>),
    /// `A ⊠ B` of two second-order tensors, `(A ⊠ B)_{ijmn} = A_{im} B_{jn}`.
    BoxTimes(Rc<TensorExpr>, Rc<TensorExpr>),
    /// Fourth-order identity tensor.
    Identity4 { dim: usize },
    Add(Rc<TensorExpr>, Rc<TensorExpr>),
    Sub(Rc<TensorExpr>, Rc<TensorExpr>),
    /// Scalar times tensor.
    ScalarMul(ScalarId, Rc<TensorExpr>),
    Neg(Rc<TensorExpr>),
    /// Element of a declared tensor set, e.g. `N[a]`; `set_dim` is the size
    /// of the family and `base` the decomposed tensor, if any.
    SetElem {
        latex: String,
        order: usize,
        dim: usize,
        index: SetIndex,
        set_dim: usize,
        base: Option<Rc<TensorExpr>>,
    },
    /// `Σ_{index=1}^{range} body`, optionally excluding one index value.
    SumIdx { index: String, range: usize, exclude: Option<String>, body: Rc<TensorExpr> },
    /// A component-filled tensor of order 1 or 2, entries row-major.
    Filled { latex: String, order: usize, dim: usize, entries: Vec<ScalarId> },
}

/// Mathematical model of a [`SetIndex`].
pub enum IndexModel {
    Sym(Seq<char>),
    Num(nat),
}

/// Mathematical model of a [`TensorExpr`]: text as character sequences.
pub enum TensorModel {
    Var { name: Seq<char>, latex: Seq<char>, order: nat, dim: nat, props: TensorProperties },
    Transpose(Box<TensorModel>),
    Inverse(Box<TensorModel>),
    InverseTranspose(Box<TensorModel>),
    Diff { num: Box<TensorModel>, den: Box<TensorModel>, num_label: Option<Seq<char>> },
    MatMul(Box<TensorModel>, Box<TensorModel>),
    Power { base: Box<TensorModel>, exp: nat },
    Outer(Box<TensorModel>, Box<TensorModel>),
    BoxTimes(Box<TensorModel>, Box<TensorModel>),
    Identity4 { dim: nat },
    Add(Box<TensorModel>, Box<TensorModel>),
    Sub(Box<TensorModel>, Box<TensorModel>),
    ScalarMul(ScalarId, Box<TensorModel>),
    Neg(Box<TensorModel>),
    SetElem {
        latex: Seq<char>,
        order: nat,
        dim: nat,
        index: IndexModel,
        set_dim: nat,
        base: Option<Box<TensorModel>>,
    },
    SumIdx { index: Seq<char>, range: nat, exclude: Option<Seq<char>>, body: Box<TensorModel> },
    Filled { latex: Seq<char>, order: nat, dim: nat, entries: Seq<ScalarId> },
}

pub open spec fn opt_text(o: Option<String>) -> Option<Seq<char>> {
    match o {
        Some(s) => Some(s@),
        None => None,
    }
}

pub open spec fn index_model(i: SetIndex) -> IndexModel {
    match i {
        SetIndex::Sym(s) => IndexModel::Sym(s@),
        SetIndex::Num(n) => IndexModel::Num(n as nat),
    }
}

pub open spec fn tensor_model(t: TensorExpr) -> TensorModel
    decreases t,
{
    match t {
        TensorExpr::Var { name, latex, order, dim, props } => TensorModel::Var {
            name: name@,
            latex: latex@,
            order: order as nat,
            dim: dim as nat,
            props,
        },
        TensorExpr::Transpose(a) => TensorModel::Transpose(Box::new(tensor_model(*a))),
        TensorExpr::Inverse(a) => TensorModel::Inverse(Box::new(tensor_model(*a))),
        TensorExpr::InverseTranspose(a) => TensorModel::InverseTranspose(Box::new(tensor_model(*a))),
        TensorExpr::Diff { num, den, num_label } => TensorModel::Diff {
            num: Box::new(tensor_model(*num)),
            den: Box::new(tensor_model(*den)),
            num_label: opt_text(num_label),
        },
        TensorExpr::MatMul(a, b) => TensorModel::MatMul(
            Box::new(tensor_model(*a)),
            Box::new(tensor_model(*b)),
        ),
        TensorExpr::Power { base, exp } => TensorModel::Power {
            base: Box::new(tensor_model(*base)),
            exp: exp as nat,
        },
        TensorExpr::Outer(a, b) => TensorModel::Outer(
            Box::new(tensor_model(*a)),
            Box::new(tensor_model(*b)),
        ),
        TensorExpr::BoxTimes(a, b) => TensorModel::BoxTimes(
            Box::new(tensor_model(*a)),
            Box::new(tensor_model(*b)),
        ),
        TensorExpr::Identity4 { dim } => TensorModel::Identity4 { dim: dim as nat },
        TensorExpr::Add(a, b) => TensorModel::Add(
            Box::new(tensor_model(*a)),
            Box::new(tensor_model(*b)),
        ),
        TensorExpr::Sub(a, b) => TensorModel::Sub(
            Box::new(tensor_model(*a)),
            Box::new(tensor_model(*b)),
        ),
        TensorExpr::ScalarMul(s, a) => TensorModel::ScalarMul(s, Box::new(tensor_model(*a))),
        TensorExpr::Neg(a) => TensorModel::Neg(Box::new(tensor_model(*a))),
        TensorExpr::SetElem { latex, order, dim, index, set_dim, base } => TensorModel::SetElem {
            latex: latex@,
            order: order as nat,
            dim: dim as nat,
            index: index_model(index),
            set_dim: set_dim as nat,
            base: match base {
                Some(b) => Some(Box::new(tensor_model(*b))),
                None => None,
            },
        },
        TensorExpr::SumIdx { index, range, exclude, body } => TensorModel::SumIdx {
            index: index@,
            range: range as nat,
            exclude: opt_text(exclude),
            body: Box::new(tensor_model(*body)),
        },
        TensorExpr::Filled { latex, order, dim, entries } => TensorModel::Filled {
            latex: latex@,
            order: order as nat,
            dim: dim as nat,
            entries: entries@,
        },
    }
}

impl View for TensorExpr {
    type V = TensorModel;

    open spec fn view(&self) -> TensorModel {
        tensor_model(*self)
    }
}

/// The order (number of indices) of a tensor expression.
pub open spec fn order_of(m: TensorModel) -> nat
    decreases m,
{
    match m {
        TensorModel::Var { order, .. } => order,
        TensorModel::Transpose(t) => order_of(*t),
        TensorModel::Inverse(t) => order_of(*t),
        TensorModel::InverseTranspose(t) => order_of(*t),
        TensorModel::Diff { num, den, .. } => order_of(*num) + order_of(*den),
        TensorModel::Outer(a, b) => order_of(*a) + order_of(*b),
        TensorModel::BoxTimes(..) => 4,
        TensorModel::Identity4 { .. } => 4,
        TensorModel::MatMul(a, _) => order_of(*a),
        TensorModel::Power { base, .. } => order_of(*base),
        TensorModel::Add(a, _) => order_of(*a),
        TensorModel::Sub(a, _) => order_of(*a),
        TensorModel::ScalarMul(_, t) => order_of(*t),
        TensorModel::Neg(t) => order_of(*t),
        TensorModel::SetElem { order, .. } => order,
        TensorModel::SumIdx { body, .. } => order_of(*body),
        TensorModel::Filled { order, .. } => order,
    }
}

/// The dimension (range of each index) of a tensor expression.
pub open spec fn dim_of(m: TensorModel) -> nat
    decreases m,
{
    match m {
        TensorModel::Var { dim, .. } => dim,
        TensorModel::Transpose(t) => dim_of(*t),
        TensorModel::Inverse(t) => dim_of(*t),
        TensorModel::InverseTranspose(t) => dim_of(*t),
        TensorModel::Diff { num, .. } => dim_of(*num),
        TensorModel::Outer(a, _) => dim_of(*a),
        TensorModel::BoxTimes(a, _) => dim_of(*a),
        TensorModel::Identity4 { dim } => dim,
        TensorModel::MatMul(a, _) => dim_of(*a),
        TensorModel::Power { base, .. } => dim_of(*base),
        TensorModel::Add(a, _) => dim_of(*a),
        TensorModel::Sub(a, _) => dim_of(*a),
        TensorModel::ScalarMul(_, t) => dim_of(*t),
        TensorModel::Neg(t) => dim_of(*t),
        TensorModel::SetElem { dim, .. } => dim,
        TensorModel::SumIdx { body, .. } => dim_of(*body),
        TensorModel::Filled { dim, .. } => dim,
    }
}

/// Machine limits that computing with an expression needs: every order
/// fits in a `usize`, and a second-order component-filled tensor holds at
/// least `dim * dim` entries (with `dim * dim` itself a `usize`).
pub open spec fn sized(m: TensorModel) -> bool
    decreases m,
{
    order_of(m) <= usize::MAX && match m {
        TensorModel::Var { .. } => true,
        TensorModel::Transpose(t) => sized(*t),
        TensorModel::Inverse(t) => sized(*t),
        TensorModel::InverseTranspose(t) => sized(*t),
        TensorModel::Diff { num, den, .. } => sized(*num) && sized(*den),
        TensorModel::Outer(a, b) => sized(*a) && sized(*b),
        TensorModel::BoxTimes(a, b) => sized(*a) && sized(*b),
        TensorModel::Identity4 { .. } => true,
        TensorModel::MatMul(a, b) => sized(*a) && sized(*b),
        TensorModel::Power { base, .. } => sized(*base),
        TensorModel::Add(a, b) => sized(*a) && sized(*b),
        TensorModel::Sub(a, b) => sized(*a) && sized(*b),
        TensorModel::ScalarMul(_, t) => sized(*t),
        TensorModel::Neg(t) => sized(*t),
        TensorModel::SetElem { base, .. } => match base {
            Some(b) => sized(*b),
            None => true,
        },
        TensorModel::SumIdx { body, .. } => sized(*body),
        TensorModel::Filled { order, dim, entries, .. } => order == 2 ==> dim * dim <= usize::MAX
            && dim * dim <= entries.len(),
    }
}

impl TensorExpr {
    pub fn order(&self) -> (n: usize)
        requires
            sized(self@),
        ensures
            n as nat == order_of(self@),
        decreases self,
    {
        match self {
            TensorExpr::Var { order, .. } => *order,
            TensorExpr::Transpose(t) => t.order(),
            TensorExpr::Inverse(t) => t.order(),
            TensorExpr::InverseTranspose(t) => t.order(),
            TensorExpr::Diff { num, den, .. } => num.order() + den.order(),
            TensorExpr::Outer(a, b) => a.order() + b.order(),
            TensorExpr::BoxTimes(..) => 4,
            TensorExpr::Identity4 { .. } => 4,
            TensorExpr::MatMul(a, _) => a.order(),
            TensorExpr::Power { base, .. } => base.order(),
            TensorExpr::Add(a, _) => a.order(),
            TensorExpr::Sub(a, _) => a.order(),
            TensorExpr::ScalarMul(_, t) => t.order(),
            TensorExpr::Neg(t) => t.order(),
            TensorExpr::SetElem { order, .. } => *order,
            TensorExpr::SumIdx { body, .. } => body.order(),
            TensorExpr::Filled { order, .. } => *order,
        }
    }

    pub fn dim(&self) -> (n: usize)
        ensures
            n as nat == dim_of(self@),
        decreases self,
    {
        match self {
            TensorExpr::Var { dim, .. } => *dim,
            TensorExpr::Transpose(t) => t.dim(),
            TensorExpr::Inverse(t) => t.dim(),
            TensorExpr::InverseTranspose(t) => t.dim(),
            TensorExpr::Diff { num, .. } => num.dim(),
            TensorExpr::Outer(a, _) => a.dim(),
            TensorExpr::BoxTimes(a, _) => a.dim(),
            TensorExpr::Identity4 { dim } => *dim,
            TensorExpr::MatMul(a, _) => a.dim(),
            TensorExpr::Power { base, .. } => base.dim(),
            TensorExpr::Add(a, _) => a.dim(),
            TensorExpr::Sub(a, _) => a.dim(),
            TensorExpr::ScalarMul(_, t) => t.dim(),
            TensorExpr::Neg(t) => t.dim(),
            TensorExpr::SetElem { dim, .. } => *dim,
            TensorExpr::SumIdx { body, .. } => body.dim(),
            TensorExpr::Filled { dim, .. } => *dim,
        }
    }

    /// Whether this is a variable declared as the identity.
    pub fn is_identity(&self) -> (b: bool)
        ensures
            b == is_identity_m(self@),
    {
        match self {
            TensorExpr::Var { props, .. } => props.identity,
            _ => false,
        }
    }
}

pub open spec fn is_identity_m(m: TensorModel) -> bool {
    match m {
        TensorModel::Var { props, .. } => props.identity,
        _ => false,
    }
}


fn opt_text_eq(a: &Option<String>, b: &Option<String>) -> (r: bool)
    ensures
        r == (opt_text(*a) == opt_text(*b)),
{
    match (a, b) {
        (Some(x), Some(y)) => str_eq(x.as_str(), y.as_str()),
        (None, None) => true,
        _ => false,
    }
}

fn props_eq(a: &TensorProperties, b: &TensorProperties) -> (r: bool)
    ensures
        r == (*a == *b),
{
    a.identity == b.identity && a.symmetric == b.symmetric && a.antisymmetric == b.antisymmetric
        && a.orthogonal == b.orthogonal && a.isotropic == b.isotropic
}

fn ids_eq(a: &Vec<ScalarId>, b: &Vec<ScalarId>) -> (r: bool)
    ensures
        r == (a@ == b@),
{
    if a.len() != b.len() {
        return false;
    }
    let mut i: usize = 0;
    while i < a.len()
        invariant
            a@.len() == b@.len(),
            i <= a@.len(),
            forall|k: int| 0 <= k < i ==> a@[k] == b@[k],
        decreases a.len() - i,
    {
        if a[i] != b[i] {
            return false;
        }
        i = i + 1;
    }
    assert(a@ =~= b@);
    true
}

/// Structural equality of two tensor expressions (what derived `==`
/// compares).
pub fn tensor_eq(a: &TensorExpr, b: &TensorExpr) -> (r: bool)
    ensures
        r == (a@ == b@),
    decreases a,
{
    match (a, b) {
        (
            TensorExpr::Var { name: n1, latex: l1, order: o1, dim: d1, props: p1 },
            TensorExpr::Var { name: n2, latex: l2, order: o2, dim: d2, props: p2 },
        ) => str_eq(n1.as_str(), n2.as_str()) && str_eq(l1.as_str(), l2.as_str()) && *o1 == *o2
            && *d1 == *d2 && props_eq(p1, p2),
        (TensorExpr::Transpose(x), TensorExpr::Transpose(y)) => tensor_eq(x, y),
        (TensorExpr::Inverse(x), TensorExpr::Inverse(y)) => tensor_eq(x, y),
        (TensorExpr::InverseTranspose(x), TensorExpr::InverseTranspose(y)) => tensor_eq(x, y),
        (
            TensorExpr::Diff { num: n1, den: d1, num_label: l1 },
            TensorExpr::Diff { num: n2, den: d2, num_label: l2 },
        ) => tensor_eq(n1, n2) && tensor_eq(d1, d2) && opt_text_eq(l1, l2),
        (TensorExpr::MatMul(a1, b1), TensorExpr::MatMul(a2, b2)) => tensor_eq(a1, a2) && tensor_eq(
            b1,
            b2,
        ),
        (TensorExpr::Power { base: b1, exp: e1 }, TensorExpr::Power { base: b2, exp: e2 }) => *e1
            == *e2 && tensor_eq(b1, b2),
        (TensorExpr::Outer(a1, b1), TensorExpr::Outer(a2, b2)) => tensor_eq(a1, a2) && tensor_eq(
            b1,
            b2,
        ),
        (TensorExpr::BoxTimes(a1, b1), TensorExpr::BoxTimes(a2, b2)) => tensor_eq(a1, a2)
            && tensor_eq(b1, b2),
        (TensorExpr::Identity4 { dim: d1 }, TensorExpr::Identity4 { dim: d2 }) => *d1 == *d2,
        (TensorExpr::Add(a1, b1), TensorExpr::Add(a2, b2)) => tensor_eq(a1, a2) && tensor_eq(
            b1,
            b2,
        ),
        (TensorExpr::Sub(a1, b1), TensorExpr::Sub(a2, b2)) => tensor_eq(a1, a2) && tensor_eq(
            b1,
            b2,
        ),
        (TensorExpr::ScalarMul(s1, t1), TensorExpr::ScalarMul(s2, t2)) => *s1 == *s2 && tensor_eq(
            t1,
            t2,
        ),
        (TensorExpr::Neg(x), TensorExpr::Neg(y)) => tensor_eq(x, y),
        (
            TensorExpr::SetElem { latex: l1, order: o1, dim: d1, index: i1, set_dim: s1, base: b1 },
            TensorExpr::SetElem { latex: l2, order: o2, dim: d2, index: i2, set_dim: s2, base: b2 },
        ) => {
            let same_index = match (i1, i2) {
                (SetIndex::Sym(x), SetIndex::Sym(y)) => str_eq(x.as_str(), y.as_str()),
                (SetIndex::Num(x), SetIndex::Num(y)) => *x == *y,
                _ => false,
            };
            let same_base = match (b1, b2) {
                (Some(x), Some(y)) => tensor_eq(x, y),
                (None, None) => true,
                _ => false,
            };
            str_eq(l1.as_str(), l2.as_str()) && *o1 == *o2 && *d1 == *d2 && same_index && *s1 == *s2
                && same_base
        },
        (
            TensorExpr::SumIdx { index: i1, range: r1, exclude: e1, body: b1 },
            TensorExpr::SumIdx { index: i2, range: r2, exclude: e2, body: b2 },
        ) => str_eq(i1.as_str(), i2.as_str()) && *r1 == *r2 && opt_text_eq(e1, e2) && tensor_eq(
            b1,
            b2,
        ),
        (
            TensorExpr::Filled { latex: l1, order: o1, dim: d1, entries: x1 },
            TensorExpr::Filled { latex: l2, order: o2, dim: d2, entries: x2 },
        ) => str_eq(l1.as_str(), l2.as_str()) && *o1 == *o2 && *d1 == *d2 && ids_eq(x1, x2),
        _ => false,
    }
}

fn copy_text(o: &Option<String>) -> (r: Option<String>)
    ensures
        opt_text(r) == opt_text(*o),
{
    match o {
        Some(s) => Some(s.clone()),
        None => None,
    }
}

/// A fresh copy of `t` with the same model.
pub fn copy_tensor(t: &TensorExpr) -> (r: TensorExpr)
    ensures
        r@ == t@,
    decreases t,
{
    match t {
        TensorExpr::Var { name, latex, order, dim, props } => TensorExpr::Var {
            name: name.clone(),
            latex: latex.clone(),
            order: *order,
            dim: *dim,
            props: *props,
        },
        TensorExpr::Transpose(a) => TensorExpr::Transpose(Rc::new(copy_tensor(a))),
        TensorExpr::Inverse(a) => TensorExpr::Inverse(Rc::new(copy_tensor(a))),
        TensorExpr::InverseTranspose(a) => TensorExpr::InverseTranspose(Rc::new(copy_tensor(a))),
        TensorExpr::Diff { num, den, num_label } => TensorExpr::Diff {
            num: Rc::new(copy_tensor(num)),
            den: Rc::new(copy_tensor(den)),
            num_label: copy_text(num_label),
        },
        TensorExpr::MatMul(a, b) => TensorExpr::MatMul(
            Rc::new(copy_tensor(a)),
            Rc::new(copy_tensor(b)),
        ),
        TensorExpr::Power { base, exp } => TensorExpr::Power {
            base: Rc::new(copy_tensor(base)),
            exp: *exp,
        },
        TensorExpr::Outer(a, b) => TensorExpr::Outer(Rc::new(copy_tensor(a)), Rc::new(copy_tensor(b))),
        TensorExpr::BoxTimes(a, b) => TensorExpr::BoxTimes(
            Rc::new(copy_tensor(a)),
            Rc::new(copy_tensor(b)),
        ),
        TensorExpr::Identity4 { dim } => TensorExpr::Identity4 { dim: *dim },
        TensorExpr::Add(a, b) => TensorExpr::Add(Rc::new(copy_tensor(a)), Rc::new(copy_tensor(b))),
        TensorExpr::Sub(a, b) => TensorExpr::Sub(Rc::new(copy_tensor(a)), Rc::new(copy_tensor(b))),
        TensorExpr::ScalarMul(s, a) => TensorExpr::ScalarMul(*s, Rc::new(copy_tensor(a))),
        TensorExpr::Neg(a) => TensorExpr::Neg(Rc::new(copy_tensor(a))),
        TensorExpr::SetElem { latex, order, dim, index, set_dim, base } => TensorExpr::SetElem {
            latex: latex.clone(),
            order: *order,
            dim: *dim,
            index: match index {
                SetIndex::Sym(x) => SetIndex::Sym(x.clone()),
                SetIndex::Num(k) => SetIndex::Num(*k),
            },
            set_dim: *set_dim,
            base: match base {
                Some(b) => Some(Rc::new(copy_tensor(b))),
                None => None,
            },
        },
        TensorExpr::SumIdx { index, range, exclude, body } => TensorExpr::SumIdx {
            index: index.clone(),
            range: *range,
            exclude: copy_text(exclude),
            body: Rc::new(copy_tensor(body)),
        },
        TensorExpr::Filled { latex, order, dim, entries } => {
            let mut es: Vec<ScalarId> = Vec::new();
            let mut i: usize = 0;
            while i < entries.len()
                invariant
                    i <= entries@.len(),
                    es@ == entries@.take(i as int),
                decreases entries.len() - i,
            {
                es.push(entries[i]);
                i = i + 1;
            }
            assert(entries@.take(entries@.len() as int) == entries@);
            TensorExpr::Filled { latex: latex.clone(), order: *order, dim: *dim, entries: es }
        },
    }
}


/// A row-major `dim × dim` table equal to its transpose.
pub open spec fn filled_symmetric(dim: nat, entries: Seq<ScalarId>) -> bool {
    forall|i: int, j: int|
        0 <= j < i < dim ==> #[trigger] entries[i * dim + j] == #[trigger] entries[j * dim + i]
}

/// Strictly provable symmetry of a second-order expression: a variable
/// declared symmetric or identity; `A^T A` and `A A^T` for structurally
/// identical `A`; transposes, inverses, sums, differences, scalar multiples
/// and negations of symmetric expressions; products with an identity
/// factor; `u ⊗ u`; a component-filled tensor whose entries mirror; a set
/// sum of a symmetric body. Nothing else (in particular not the product of
/// two symmetric tensors) is inferred.
pub open spec fn symmetric_m(m: TensorModel) -> bool
    decreases m,
{
    order_of(m) == 2 && match m {
        TensorModel::Var { props, .. } => props.symmetric || props.identity,
        TensorModel::Transpose(t) => symmetric_m(*t),
        TensorModel::Inverse(t) => symmetric_m(*t),
        TensorModel::InverseTranspose(t) => symmetric_m(*t),
        TensorModel::Diff { .. } => false,
        TensorModel::Identity4 { .. } => false,
        TensorModel::MatMul(a, b) => {
            if (match *a {
                TensorModel::Transpose(inner) => *inner == *b,
                _ => false,
            }) {
                true
            } else if (match *b {
                TensorModel::Transpose(inner) => *inner == *a,
                _ => false,
            }) {
                true
            } else if is_identity_m(*a) {
                symmetric_m(*b)
            } else if is_identity_m(*b) {
                symmetric_m(*a)
            } else {
                false
            }
        },
        TensorModel::Add(a, b) => symmetric_m(*a) && symmetric_m(*b),
        TensorModel::Sub(a, b) => symmetric_m(*a) && symmetric_m(*b),
        TensorModel::ScalarMul(_, t) => symmetric_m(*t),
        TensorModel::Neg(t) => symmetric_m(*t),
        TensorModel::Outer(a, b) => *a == *b,
        TensorModel::BoxTimes(..) => false,
        TensorModel::SetElem { .. } => false,
        TensorModel::Filled { order, dim, entries, .. } => order == 2 && filled_symmetric(
            dim,
            entries,
        ),
        TensorModel::SumIdx { body, .. } => symmetric_m(*body),
        TensorModel::Power { .. } => false,
    }
}

proof fn lemma_row_major_bounds(i: int, j: int, dim: int)
    requires
        0 <= j < i < dim,
    ensures
        i * dim + j < dim * dim,
        j * dim + i < dim * dim,
        0 <= j * dim + i,
        0 <= i * dim + j,
{
    assert(i * dim + j < (i + 1) * dim) by (nonlinear_arith)
        requires
            j < dim,
    ;
    assert((i + 1) * dim <= dim * dim) by (nonlinear_arith)
        requires
            i + 1 <= dim,
            0 <= dim,
    ;
    assert(j * dim + i < (j + 1) * dim) by (nonlinear_arith)
        requires
            i < dim,
    ;
    assert((j + 1) * dim <= dim * dim) by (nonlinear_arith)
        requires
            j + 1 <= dim,
            0 <= dim,
    ;
    assert(0 <= j * dim) by (nonlinear_arith)
        requires
            0 <= j,
            0 <= dim,
    ;
    assert(0 <= i * dim) by (nonlinear_arith)
        requires
            0 <= i,
            0 <= dim,
    ;
}

/// Whether a row-major `dim × dim` table of entries equals its transpose.
pub fn filled_is_symmetric(dim: usize, entries: &Vec<ScalarId>) -> (r: bool)
    requires
        dim * dim <= usize::MAX,
        dim * dim <= entries@.len(),
    ensures
        r == filled_symmetric(dim as nat, entries@),
{
    let mut i: usize = 0;
    while i < dim
        invariant
            i <= dim,
            dim * dim <= usize::MAX,
            dim * dim <= entries@.len(),
            forall|a: int, b: int|
                0 <= b < a < i ==> #[trigger] entries@[a * dim + b] == #[trigger] entries@[b * dim
                    + a],
        decreases dim - i,
    {
        let mut j: usize = 0;
        while j < i
            invariant
                j <= i < dim,
                dim * dim <= usize::MAX,
                dim * dim <= entries@.len(),
                forall|a: int, b: int|
                    0 <= b < a < i ==> #[trigger] entries@[a * dim + b] == #[trigger] entries@[b
                        * dim + a],
                forall|b: int|
                    0 <= b < j ==> #[trigger] entries@[i * dim + b] == entries@[b * dim + i],
            decreases i - j,
        {
            proof {
                lemma_row_major_bounds(i as int, j as int, dim as int);
            }
            if entries[i * dim + j] != entries[j * dim + i] {
                assert(!filled_symmetric(dim as nat, entries@)) by {
                    assert(entries@[i * dim + j] != entries@[j * dim + i]);
                }
                return false;
            }
            j = j + 1;
        }
        i = i + 1;
    }
    true
}

impl TensorExpr {
    /// `true` iff symmetry is strictly provable (see [`symmetric_m`]).
    pub fn is_symmetric(&self) -> (b: bool)
        requires
            sized(self@),
        ensures
            b == symmetric_m(self@),
    {
        is_symmetric(self)
    }
}

/// Strict symmetry proof for second-order tensor expressions (see
/// [`symmetric_m`]).
pub fn is_symmetric(expr: &TensorExpr) -> (b: bool)
    requires
        sized(expr@),
    ensures
        b == symmetric_m(expr@),
    decreases expr,
{
    if expr.order() != 2 {
        return false;
    }
    match expr {
        TensorExpr::Var { props, .. } => props.symmetric || props.identity,
        TensorExpr::Transpose(t) => is_symmetric(t),
        TensorExpr::Inverse(t) => is_symmetric(t),
        TensorExpr::InverseTranspose(t) => is_symmetric(t),
        TensorExpr::Diff { .. } => false,
        TensorExpr::Identity4 { .. } => false,
        TensorExpr::MatMul(a, b) => {
            if let TensorExpr::Transpose(inner) = &**a {
                assert(tensor_model(**a) == TensorModel::Transpose(Box::new(tensor_model(**inner))));
                if tensor_eq(inner, b) {
                    return true;
                }
            }
            if let TensorExpr::Transpose(inner) = &**b {
                assert(tensor_model(**b) == TensorModel::Transpose(Box::new(tensor_model(**inner))));
                if tensor_eq(inner, a) {
                    return true;
                }
            }
            if a.is_identity() {
                is_symmetric(b)
            } else if b.is_identity() {
                is_symmetric(a)
            } else {
                false
            }
        },
        TensorExpr::Add(a, b) => is_symmetric(a) && is_symmetric(b),
        TensorExpr::Sub(a, b) => is_symmetric(a) && is_symmetric(b),
        TensorExpr::ScalarMul(_, t) => is_symmetric(t),
        TensorExpr::Neg(t) => is_symmetric(t),
        TensorExpr::Outer(a, b) => tensor_eq(a, b),
        TensorExpr::BoxTimes(..) => false,
        TensorExpr::SetElem { .. } => false,
        TensorExpr::Filled { order, dim, entries, .. } => {
            if *order == 2 {
                filled_is_symmetric(*dim, entries)
            } else {
                false
            }
        },
        TensorExpr::SumIdx { body, .. } => is_symmetric(body),
        TensorExpr::Power { .. } => false,
    }
}


/// Shape compatibility of every node, as the checked constructors ensure
/// it: transposes, inverses, powers, products and `⊠` take second-order
/// operands of one dimension, sums take operands of one shape, and an
/// outer product takes operands of one dimension.
pub open spec fn well_shaped(m: TensorModel) -> bool
    decreases m,
{
    match m {
        TensorModel::Var { .. } => true,
        TensorModel::Transpose(t) => order_of(*t) == 2 && well_shaped(*t),
        TensorModel::Inverse(t) => order_of(*t) == 2 && well_shaped(*t),
        TensorModel::InverseTranspose(t) => order_of(*t) == 2 && well_shaped(*t),
        TensorModel::Diff { num, den, .. } => well_shaped(*num) && well_shaped(*den),
        TensorModel::MatMul(a, b) => order_of(*a) == 2 && order_of(*b) == 2 && dim_of(*a) == dim_of(
            *b,
        ) && well_shaped(*a) && well_shaped(*b),
        TensorModel::Power { base, exp } => order_of(*base) == 2 && exp >= 2 && well_shaped(*base),
        TensorModel::Outer(a, b) => dim_of(*a) == dim_of(*b) && well_shaped(*a) && well_shaped(*b),
        TensorModel::BoxTimes(a, b) => order_of(*a) == 2 && order_of(*b) == 2 && dim_of(*a)
            == dim_of(*b) && well_shaped(*a) && well_shaped(*b),
        TensorModel::Identity4 { .. } => true,
        TensorModel::Add(a, b) => order_of(*a) == order_of(*b) && dim_of(*a) == dim_of(*b)
            && well_shaped(*a) && well_shaped(*b),
        TensorModel::Sub(a, b) => order_of(*a) == order_of(*b) && dim_of(*a) == dim_of(*b)
            && well_shaped(*a) && well_shaped(*b),
        TensorModel::ScalarMul(_, t) => well_shaped(*t),
        TensorModel::Neg(t) => well_shaped(*t),
        TensorModel::SetElem { base, .. } => match base {
            Some(b) => well_shaped(*b),
            None => true,
        },
        TensorModel::SumIdx { body, .. } => well_shaped(*body),
        TensorModel::Filled { .. } => true,
    }
}

/// `prefix` followed by the decimal text of `n`.
fn with_number(prefix: &str, n: usize) -> (s: String)
    ensures
        s@ == prefix@ + decimal(n as nat),
{
    let d = decimal_string(n);
    concat_str(prefix, d.as_str())
}

/// The message for a unary operation that needs a second-order operand.
pub open spec fn needs_second_order(what: Seq<char>, order: nat) -> Seq<char> {
    what + " requires a second-order tensor, got order "@ + decimal(order)
}

fn needs_second_order_error(what: &str, order: usize) -> (e: Error)
    ensures
        e@ == (ErrorModel { message: needs_second_order(what@, order as nat), line: None }),
{
    let mut m = concat_str(what, " requires a second-order tensor, got order ");
    m.append(decimal_string(order).as_str());
    Error::msg(m)
}

/// `prefix` + `a` + `sep` + `b`, numbers in decimal.
pub open spec fn two_numbers(prefix: Seq<char>, a: nat, sep: Seq<char>, b: nat) -> Seq<char> {
    prefix + decimal(a) + sep + decimal(b)
}

fn two_numbers_error(prefix: &str, a: usize, sep: &str, b: usize) -> (e: Error)
    ensures
        e@ == (ErrorModel { message: two_numbers(prefix@, a as nat, sep@, b as nat), line: None }),
{
    let mut m = with_number(prefix, a);
    m.append(sep);
    m.append(decimal_string(b).as_str());
    Error::msg(m)
}

/// The result of a unary constructor that needs a second-order operand.
pub open spec fn unary_result(
    r: Result<TensorExpr, Error>,
    t: TensorModel,
    node: TensorModel,
    what: Seq<char>,
) -> bool {
    match r {
        Ok(x) => order_of(t) == 2 && x@ == node,
        Err(e) => order_of(t) != 2 && e@ == (ErrorModel {
            message: needs_second_order(what, order_of(t)),
            line: None,
        }),
    }
}

/// The left-folded product `((A A) A) …` of `n` factors (`A` itself for
/// `n ≤ 1`).
pub open spec fn power_chain(base: TensorModel, n: nat) -> TensorModel
    decreases n,
{
    if n <= 1 {
        base
    } else {
        TensorModel::MatMul(Box::new(power_chain(base, (n - 1) as nat)), Box::new(base))
    }
}

/// The shape message of a sum or difference.
pub open spec fn shape_mismatch(op: Seq<char>, a: TensorModel, b: TensorModel) -> Seq<char> {
    "shape mismatch in tensor `"@ + op + "`: order "@ + decimal(order_of(a)) + "/dim "@ + decimal(
        dim_of(a),
    ) + " vs order "@ + decimal(order_of(b)) + "/dim "@ + decimal(dim_of(b))
}

impl TensorExpr {
    /// `t.T`; refuses a tensor that is not second-order.
    pub fn transpose(t: Rc<TensorExpr>) -> (r: Result<TensorExpr, Error>)
        requires
            sized(t@),
        ensures
            unary_result(r, t@, TensorModel::Transpose(Box::new(t@)), "`.T`"@),
            r is Ok ==> (well_shaped(t@) ==> well_shaped(r->Ok_0@)) && sized(r->Ok_0@),
    {
        let n = t.order();
        if n != 2 {
            return Err(needs_second_order_error("`.T`", n));
        }
        Ok(TensorExpr::Transpose(t))
    }

    /// `inv(t)`; refuses a tensor that is not second-order.
    pub fn inverse(t: Rc<TensorExpr>) -> (r: Result<TensorExpr, Error>)
        requires
            sized(t@),
        ensures
            unary_result(r, t@, TensorModel::Inverse(Box::new(t@)), "`inv`"@),
            r is Ok ==> (well_shaped(t@) ==> well_shaped(r->Ok_0@)) && sized(r->Ok_0@),
    {
        let n = t.order();
        if n != 2 {
            return Err(needs_second_order_error("`inv`", n));
        }
        Ok(TensorExpr::Inverse(t))
    }

    /// `t^{-T}`; refuses a tensor that is not second-order.
    pub fn inverse_transpose(t: Rc<TensorExpr>) -> (r: Result<TensorExpr, Error>)
        requires
            sized(t@),
        ensures
            unary_result(r, t@, TensorModel::InverseTranspose(Box::new(t@)), "inverse transpose"@),
            r is Ok ==> (well_shaped(t@) ==> well_shaped(r->Ok_0@)) && sized(r->Ok_0@),
    {
        let n = t.order();
        if n != 2 {
            return Err(needs_second_order_error("inverse transpose", n));
        }
        Ok(TensorExpr::InverseTranspose(t))
    }

    /// `a & b`; refuses operands of different dimensions.
    pub fn outer(a: Rc<TensorExpr>, b: Rc<TensorExpr>) -> (r: Result<TensorExpr, Error>)
        ensures
            match r {
                Ok(x) => dim_of(a@) == dim_of(b@) && x@ == TensorModel::Outer(
                    Box::new(a@),
                    Box::new(b@),
                ),
                Err(e) => dim_of(a@) != dim_of(b@) && e@ == (ErrorModel {
                    message: two_numbers(
                        "dimension mismatch in outer product: "@,
                        dim_of(a@),
                        " vs "@,
                        dim_of(b@),
                    ),
                    line: None,
                }),
            },
            r is Ok ==> (well_shaped(a@) && well_shaped(b@) ==> well_shaped(r->Ok_0@)) && (sized(a@)
                && sized(b@) && order_of(a@) + order_of(b@) <= usize::MAX ==> sized(r->Ok_0@)),
    {
        let da = a.dim();
        let db = b.dim();
        if da != db {
            return Err(two_numbers_error("dimension mismatch in outer product: ", da, " vs ", db));
        }
        Ok(TensorExpr::Outer(a, b))
    }

    /// `A ⊠ B`; both factors must be second-order and of one dimension.
    pub fn box_times(a: Rc<TensorExpr>, b: Rc<TensorExpr>) -> (r: Result<TensorExpr, Error>)
        requires
            sized(a@),
            sized(b@),
        ensures
            match r {
                Ok(x) => order_of(a@) == 2 && order_of(b@) == 2 && dim_of(a@) == dim_of(b@) && x@
                    == TensorModel::BoxTimes(Box::new(a@), Box::new(b@)),
                Err(e) => if order_of(a@) != 2 || order_of(b@) != 2 {
                    e@ == (ErrorModel {
                        message: two_numbers(
                            "`⊠` requires second-order tensors, got orders "@,
                            order_of(a@),
                            " and "@,
                            order_of(b@),
                        ),
                        line: None,
                    })
                } else {
                    dim_of(a@) != dim_of(b@) && e@ == (ErrorModel {
                        message: two_numbers(
                            "dimension mismatch in `⊠` product: "@,
                            dim_of(a@),
                            " vs "@,
                            dim_of(b@),
                        ),
                        line: None,
                    })
                },
            },
            r is Ok ==> (well_shaped(a@) && well_shaped(b@) ==> well_shaped(r->Ok_0@)) && sized(
                r->Ok_0@,
            ),
    {
        let oa = a.order();
        let ob = b.order();
        if oa != 2 || ob != 2 {
            return Err(
                two_numbers_error("`⊠` requires second-order tensors, got orders ", oa, " and ", ob),
            );
        }
        let da = a.dim();
        let db = b.dim();
        if da != db {
            return Err(two_numbers_error("dimension mismatch in `⊠` product: ", da, " vs ", db));
        }
        Ok(TensorExpr::BoxTimes(a, b))
    }

    /// `A * B` (single contraction); both factors must be second-order and
    /// of one dimension.
    pub fn matmul(a: Rc<TensorExpr>, b: Rc<TensorExpr>) -> (r: Result<TensorExpr, Error>)
        requires
            sized(a@),
            sized(b@),
        ensures
            match r {
                Ok(x) => order_of(a@) == 2 && order_of(b@) == 2 && dim_of(a@) == dim_of(b@) && x@
                    == TensorModel::MatMul(Box::new(a@), Box::new(b@)),
                Err(e) => if order_of(a@) != 2 || order_of(b@) != 2 {
                    e@ == (ErrorModel {
                        message: two_numbers(
                            "tensor product `*` requires second-order tensors, got orders "@,
                            order_of(a@),
                            " and "@,
                            order_of(b@),
                        ),
                        line: None,
                    })
                } else {
                    dim_of(a@) != dim_of(b@) && e@ == (ErrorModel {
                        message: two_numbers(
                            "dimension mismatch in tensor product: "@,
                            dim_of(a@),
                            " vs "@,
                            dim_of(b@),
                        ),
                        line: None,
                    })
                },
            },
            r is Ok ==> (well_shaped(a@) && well_shaped(b@) ==> well_shaped(r->Ok_0@)) && sized(
                r->Ok_0@,
            ),
    {
        let oa = a.order();
        let ob = b.order();
        if oa != 2 || ob != 2 {
            return Err(
                two_numbers_error(
                    "tensor product `*` requires second-order tensors, got orders ",
                    oa,
                    " and ",
                    ob,
                ),
            );
        }
        let da = a.dim();
        let db = b.dim();
        if da != db {
            return Err(two_numbers_error("dimension mismatch in tensor product: ", da, " vs ", db));
        }
        Ok(TensorExpr::MatMul(a, b))
    }

    /// `A^n` for a second-order `A` and `n ≥ 1`; `A^1` is `A` itself and
    /// `A^0` is refused.
    pub fn power(base: Rc<TensorExpr>, exp: u32) -> (r: Result<TensorExpr, Error>)
        requires
            sized(base@),
        ensures
            match r {
                Ok(x) => order_of(base@) == 2 && exp != 0 && x@ == (if exp == 1 {
                    base@
                } else {
                    TensorModel::Power { base: Box::new(base@), exp: exp as nat }
                }),
                Err(e) => if order_of(base@) != 2 {
                    e@ == (ErrorModel {
                        message: needs_second_order("`^` (matrix power)"@, order_of(base@)),
                        line: None,
                    })
                } else {
                    exp == 0 && e@ == (ErrorModel {
                        message: "tensor power 0 is not supported; use the identity tensor"@,
                        line: None,
                    })
                },
            },
            r is Ok ==> (well_shaped(base@) ==> well_shaped(r->Ok_0@)) && sized(r->Ok_0@),
    {
        let n = base.order();
        if n != 2 {
            return Err(needs_second_order_error("`^` (matrix power)", n));
        }
        if exp == 0 {
            return Err(
                Error::msg(String::from_str("tensor power 0 is not supported; use the identity tensor")),
            );
        }
        if exp == 1 {
            return Ok(copy_tensor(&base));
        }
        Ok(TensorExpr::Power { base, exp })
    }

    /// Expands `A^n` into the left-folded product `((A A) A) …` of `n`
    /// factors.
    pub fn expand_power(base: &Rc<TensorExpr>, exp: u32) -> (r: Rc<TensorExpr>)
        ensures
            r@ == power_chain(base@, exp as nat),
    {
        let mut acc: Rc<TensorExpr> = Rc::new(copy_tensor(base));
        let mut k: u32 = 1;
        while k < exp
            invariant
                1 <= k,
                k <= exp || (exp == 0 && k == 1),
                acc@ == power_chain(base@, k as nat),
            decreases exp - k,
        {
            acc = Rc::new(TensorExpr::MatMul(acc, Rc::new(copy_tensor(base))));
            k = k + 1;
        }
        if exp == 0 {
            assert(power_chain(base@, 1) == base@);
            assert(power_chain(base@, 0) == base@);
        } else {
            assert(k == exp);
        }
        acc
    }

    /// `a + b`; refuses operands of different shapes.
    pub fn add(a: Rc<TensorExpr>, b: Rc<TensorExpr>) -> (r: Result<TensorExpr, Error>)
        requires
            sized(a@),
            sized(b@),
        ensures
            match r {
                Ok(x) => order_of(a@) == order_of(b@) && dim_of(a@) == dim_of(b@) && x@
                    == TensorModel::Add(Box::new(a@), Box::new(b@)),
                Err(e) => !(order_of(a@) == order_of(b@) && dim_of(a@) == dim_of(b@)) && e@
                    == (ErrorModel { message: shape_mismatch("+"@, a@, b@), line: None }),
            },
            r is Ok ==> (well_shaped(a@) && well_shaped(b@) ==> well_shaped(r->Ok_0@)) && sized(
                r->Ok_0@,
            ),
    {
        check_same_shape(&a, &b, "+")?;
        Ok(TensorExpr::Add(a, b))
    }

    /// `a - b`; refuses operands of different shapes.
    pub fn sub(a: Rc<TensorExpr>, b: Rc<TensorExpr>) -> (r: Result<TensorExpr, Error>)
        requires
            sized(a@),
            sized(b@),
        ensures
            match r {
                Ok(x) => order_of(a@) == order_of(b@) && dim_of(a@) == dim_of(b@) && x@
                    == TensorModel::Sub(Box::new(a@), Box::new(b@)),
                Err(e) => !(order_of(a@) == order_of(b@) && dim_of(a@) == dim_of(b@)) && e@
                    == (ErrorModel { message: shape_mismatch("-"@, a@, b@), line: None }),
            },
            r is Ok ==> (well_shaped(a@) && well_shaped(b@) ==> well_shaped(r->Ok_0@)) && sized(
                r->Ok_0@,
            ),
    {
        check_same_shape(&a, &b, "-")?;
        Ok(TensorExpr::Sub(a, b))
    }

    /// `-t`, removing a double negation.
    pub fn negated(self) -> (r: TensorExpr)
        ensures
            r@ == match self@ {
                TensorModel::Neg(inner) => *inner,
                other => TensorModel::Neg(Box::new(other)),
            },
    {
        match self {
            TensorExpr::Neg(inner) => copy_tensor(&inner),
            other => TensorExpr::Neg(Rc::new(other)),
        }
    }
}

/// Refuses operands of different order or dimension for `op`.
fn check_same_shape(a: &TensorExpr, b: &TensorExpr, op: &str) -> (r: Result<(), Error>)
    requires
        sized(a@),
        sized(b@),
    ensures
        match r {
            Ok(_) => order_of(a@) == order_of(b@) && dim_of(a@) == dim_of(b@),
            Err(e) => !(order_of(a@) == order_of(b@) && dim_of(a@) == dim_of(b@)) && e@ == (
            ErrorModel { message: shape_mismatch(op@, a@, b@), line: None }),
        },
{
    let oa = a.order();
    let ob = b.order();
    let da = a.dim();
    let db = b.dim();
    if oa != ob || da != db {
        let mut m = concat_str("shape mismatch in tensor `", op);
        m.append("`: order ");
        m.append(decimal_string(oa).as_str());
        m.append("/dim ");
        m.append(decimal_string(da).as_str());
        m.append(" vs order ");
        m.append(decimal_string(ob).as_str());
        m.append("/dim ");
        m.append(decimal_string(db).as_str());
        return Err(Error::msg(m));
    }
    Ok(())
}


/// Only second-order expressions are ever inferred symmetric.
pub proof fn law_symmetry_needs_second_order(m: TensorModel)
    ensures
        symmetric_m(m) ==> order_of(m) == 2,
{
}

/// `A^T A` and `A A^T` are inferred symmetric for every second-order `A`.
pub proof fn law_transpose_products_symmetric(a: TensorModel)
    requires
        order_of(a) == 2,
    ensures
        symmetric_m(TensorModel::MatMul(Box::new(TensorModel::Transpose(Box::new(a))), Box::new(a))),
        symmetric_m(TensorModel::MatMul(Box::new(a), Box::new(TensorModel::Transpose(Box::new(a))))),
{
    assert(order_of(TensorModel::Transpose(Box::new(a))) == 2);
}

/// The product of two declared variables that are not identities is never
/// inferred symmetric, even when both are declared symmetric: the product
/// of symmetric tensors is not symmetric in general.
pub proof fn law_product_of_variables_not_symmetric(a: TensorModel, b: TensorModel)
    requires
        a is Var,
        b is Var,
        !is_identity_m(a),
        !is_identity_m(b),
    ensures
        !symmetric_m(TensorModel::MatMul(Box::new(a), Box::new(b))),
{
}

/// Transposing, negating or scaling a second-order expression keeps what
/// is inferred of its symmetry.
pub proof fn law_symmetry_kept_by_unary_forms(t: TensorModel, s: ScalarId)
    requires
        order_of(t) == 2,
    ensures
        symmetric_m(TensorModel::Transpose(Box::new(t))) == symmetric_m(t),
        symmetric_m(TensorModel::Neg(Box::new(t))) == symmetric_m(t),
        symmetric_m(TensorModel::ScalarMul(s, Box::new(t))) == symmetric_m(t),
{
}

} // verus!
