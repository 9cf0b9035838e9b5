//! Instantiation of tensor expressions for concrete (matrix-mode) display:
//! spectral sums `Σ_a` are expanded into explicit chains of terms, and
//! elements of declared tensor sets are resolved to their assigned values
//! where the index is known.
//!
//! Scalar factors are symbolic expressions kept outside this library. Their
//! instantiation depends on the summation indices in scope, so each scalar
//! factor met on the way is handed out as a [`ScalarRequest`]: the scalar and
//! the bindings in force. In the result, the factor of the `j`-th request is
//! written as the id `j`; [`rename_scalar_factors`] puts the ids of the
//! resolved scalars in their place.

use vstd::prelude::*;
use std::rc::Rc;
use crate::error::{Error, ErrorModel};
use crate::tensor::{
    copy_tensor, opt_text, tensor_model, IndexModel, ScalarId, SetIndex, TensorExpr,
    TensorModel,
};
use crate::text::str_eq;

verus! {

broadcast use vstd::std_specs::vec::axiom_vec_decreases_to_view;

/// Summation indices in scope and their current values, in binding order;
/// a later binding of a name hides earlier ones.
pub open spec fn bindings_view(v: Seq<(String, usize)>) -> Seq<(Seq<char>, nat)> {
    v.map_values(|p: (String, usize)| (p.0@, p.1 as nat))
}

/// The value a name is bound to: its latest binding.
pub open spec fn bound_value(b: Seq<(Seq<char>, nat)>, name: Seq<char>) -> Option<nat>
    decreases b.len(),
{
    if b.len() == 0 {
        None
    } else if b.last().0 == name {
        Some(b.last().1)
    } else {
        bound_value(b.drop_last(), name)
    }
}

/// The values assigned to the elements of a declared tensor set.
#[derive(Debug)]
pub struct TensorSetValues {
    /// The set's display LaTeX, by which its elements name it.
    pub latex: String,
    /// The element values, element `k` at position `k - 1`; `None` for an
    /// element whose value is not a tensor, and no list at all when no
    /// values were assigned.
    pub values: Option<Vec<Option<TensorExpr>>>,
}

pub struct SetValuesModel {
    pub latex: Seq<char>,
    pub values: Option<Seq<Option<TensorModel>>>,
}

pub open spec fn opt_tensor_model(o: Option<TensorExpr>) -> Option<TensorModel> {
    match o {
        Some(t) => Some(t@),
        None => None,
    }
}

impl View for TensorSetValues {
    type V = SetValuesModel;

    open spec fn view(&self) -> SetValuesModel {
        SetValuesModel {
            latex: self.latex@,
            values: match self.values {
                Some(v) => Some(v@.map_values(|o: Option<TensorExpr>| opt_tensor_model(o))),
                None => None,
            },
        }
    }
}

pub open spec fn sets_view(v: Seq<TensorSetValues>) -> Seq<SetValuesModel> {
    v.map_values(|s: TensorSetValues| s@)
}

/// The value of element `k` of the set with display `latex`: the first set
/// with that display and assigned values decides, and an element without a
/// tensor value has none.
pub open spec fn set_value(sets: Seq<SetValuesModel>, latex: Seq<char>, k: nat) -> Option<
    TensorModel,
>
    decreases sets.len(),
{
    if sets.len() == 0 {
        None
    } else if sets[0].latex == latex && sets[0].values is Some {
        let vals = sets[0].values->0;
        if 1 <= k <= vals.len() {
            vals[k - 1]
        } else {
            None
        }
    } else {
        set_value(sets.drop_first(), latex, k)
    }
}

/// A scalar factor to instantiate under the bindings in force.
#[derive(Debug)]
pub struct ScalarRequest {
    pub scalar: ScalarId,
    pub bound: Vec<(String, usize)>,
}

pub struct RequestModel {
    pub scalar: ScalarId,
    pub bound: Seq<(Seq<char>, nat)>,
}

impl View for ScalarRequest {
    type V = RequestModel;

    open spec fn view(&self) -> RequestModel {
        RequestModel { scalar: self.scalar, bound: bindings_view(self.bound@) }
    }
}

pub open spec fn requests_view(v: Seq<ScalarRequest>) -> Seq<RequestModel> {
    v.map_values(|r: ScalarRequest| r@)
}

pub type Instantiated = Result<(TensorModel, Seq<RequestModel>), Seq<char>>;

pub open spec fn empty_sum_message() -> Seq<char> {
    "empty spectral sum"@
}

/// Instantiation of `t` under the bindings `b`, after the scalar requests
/// `reqs`: the instantiated expression and the requests extended by those
/// of `t`, in the order the factors are met.
pub open spec fn inst_spec(
    t: TensorModel,
    b: Seq<(Seq<char>, nat)>,
    sets: Seq<SetValuesModel>,
    reqs: Seq<RequestModel>,
) -> Instantiated
    decreases t, 0int,
{
    match t {
        TensorModel::SumIdx { index, range, exclude, body } => inst_sum(
            index,
            range,
            exclude,
            *body,
            b,
            sets,
            reqs,
            1,
            None,
        ),
        TensorModel::SetElem { latex, order, dim, index, set_dim, base } => {
            let k = match index {
                IndexModel::Num(k) => Some(k),
                IndexModel::Sym(n) => bound_value(b, n),
            };
            match k {
                Some(k) => match set_value(sets, latex, k) {
                    Some(v) => Ok((v, reqs)),
                    None => Ok(
                        (
                            TensorModel::SetElem {
                                latex,
                                order,
                                dim,
                                index: IndexModel::Num(k),
                                set_dim,
                                base,
                            },
                            reqs,
                        ),
                    ),
                },
                None => Ok((t, reqs)),
            }
        },
        TensorModel::Var { .. } => Ok((t, reqs)),
        TensorModel::Identity4 { .. } => Ok((t, reqs)),
        TensorModel::Filled { .. } => Ok((t, reqs)),
        TensorModel::Transpose(a) => match inst_spec(*a, b, sets, reqs) {
            Ok((x, r)) => Ok((TensorModel::Transpose(Box::new(x)), r)),
            Err(e) => Err(e),
        },
        TensorModel::Inverse(a) => match inst_spec(*a, b, sets, reqs) {
            Ok((x, r)) => Ok((TensorModel::Inverse(Box::new(x)), r)),
            Err(e) => Err(e),
        },
        TensorModel::InverseTranspose(a) => match inst_spec(*a, b, sets, reqs) {
            Ok((x, r)) => Ok((TensorModel::InverseTranspose(Box::new(x)), r)),
            Err(e) => Err(e),
        },
        TensorModel::Neg(a) => match inst_spec(*a, b, sets, reqs) {
            Ok((x, r)) => Ok((TensorModel::Neg(Box::new(x)), r)),
            Err(e) => Err(e),
        },
        TensorModel::Power { base, exp } => match inst_spec(*base, b, sets, reqs) {
            Ok((x, r)) => Ok((TensorModel::Power { base: Box::new(x), exp }, r)),
            Err(e) => Err(e),
        },
        TensorModel::ScalarMul(s, a) => {
            let id = reqs.len();
            match inst_spec(*a, b, sets, reqs.push(RequestModel { scalar: s, bound: b })) {
                Ok((x, r)) => Ok((TensorModel::ScalarMul(id as ScalarId, Box::new(x)), r)),
                Err(e) => Err(e),
            }
        },
        TensorModel::Diff { num, den, num_label } => match inst_spec(*num, b, sets, reqs) {
            Ok((x, r)) => match inst_spec(*den, b, sets, r) {
                Ok((y, r2)) => Ok(
                    (TensorModel::Diff { num: Box::new(x), den: Box::new(y), num_label }, r2),
                ),
                Err(e) => Err(e),
            },
            Err(e) => Err(e),
        },
        TensorModel::MatMul(a, c) => match inst_spec(*a, b, sets, reqs) {
            Ok((x, r)) => match inst_spec(*c, b, sets, r) {
                Ok((y, r2)) => Ok((TensorModel::MatMul(Box::new(x), Box::new(y)), r2)),
                Err(e) => Err(e),
            },
            Err(e) => Err(e),
        },
        TensorModel::Outer(a, c) => match inst_spec(*a, b, sets, reqs) {
            Ok((x, r)) => match inst_spec(*c, b, sets, r) {
                Ok((y, r2)) => Ok((TensorModel::Outer(Box::new(x), Box::new(y)), r2)),
                Err(e) => Err(e),
            },
            Err(e) => Err(e),
        },
        TensorModel::BoxTimes(a, c) => match inst_spec(*a, b, sets, reqs) {
            Ok((x, r)) => match inst_spec(*c, b, sets, r) {
                Ok((y, r2)) => Ok((TensorModel::BoxTimes(Box::new(x), Box::new(y)), r2)),
                Err(e) => Err(e),
            },
            Err(e) => Err(e),
        },
        TensorModel::Add(a, c) => match inst_spec(*a, b, sets, reqs) {
            Ok((x, r)) => match inst_spec(*c, b, sets, r) {
                Ok((y, r2)) => Ok((TensorModel::Add(Box::new(x), Box::new(y)), r2)),
                Err(e) => Err(e),
            },
            Err(e) => Err(e),
        },
        TensorModel::Sub(a, c) => match inst_spec(*a, b, sets, reqs) {
            Ok((x, r)) => match inst_spec(*c, b, sets, r) {
                Ok((y, r2)) => Ok((TensorModel::Sub(Box::new(x), Box::new(y)), r2)),
                Err(e) => Err(e),
            },
            Err(e) => Err(e),
        },
    }
}

/// The expansion of `Σ_{index=k}^{range} body` after the terms `acc`: each
/// value `k` not excluded binds `index` to `k` (the binding stays for the
/// following values), instantiates `body` and adds it to the chain; a sum
/// without terms is an error.
pub open spec fn inst_sum(
    index: Seq<char>,
    range: nat,
    exclude: Option<Seq<char>>,
    body: TensorModel,
    cur: Seq<(Seq<char>, nat)>,
    sets: Seq<SetValuesModel>,
    reqs: Seq<RequestModel>,
    k: nat,
    acc: Option<TensorModel>,
) -> Instantiated
    decreases body, range + 1 - k,
{
    if k > range {
        match acc {
            Some(a) => Ok((a, reqs)),
            None => Err(empty_sum_message()),
        }
    } else if exclude is Some && bound_value(cur, exclude->0) == Some(k) {
        inst_sum(index, range, exclude, body, cur, sets, reqs, k + 1, acc)
    } else {
        let cur2 = cur.push((index, k));
        match inst_spec(body, cur2, sets, reqs) {
            Ok((term, r)) => inst_sum(
                index,
                range,
                exclude,
                body,
                cur2,
                sets,
                r,
                k + 1,
                Some(
                    match acc {
                        Some(p) => TensorModel::Add(Box::new(p), Box::new(term)),
                        None => term,
                    },
                ),
            ),
            Err(e) => Err(e),
        }
    }
}

/// The latest value bound to `name`.
pub fn lookup_binding(bound: &Vec<(String, usize)>, name: &str) -> (r: Option<usize>)
    ensures
        match r {
            Some(x) => bound_value(bindings_view(bound@), name@) == Some(x as nat),
            None => bound_value(bindings_view(bound@), name@) is None,
        },
{
    let ghost bv = bindings_view(bound@);
    let mut i: usize = bound.len();
    assert(bv.take(bound.len() as int) =~= bv);
    while i > 0
        invariant
            i <= bound.len(),
            bv == bindings_view(bound@),
            bound_value(bv, name@) == bound_value(bv.take(i as int), name@),
        decreases i,
    {
        let ghost pre = bv.take(i as int);
        assert(pre.drop_last() == bv.take(i - 1));
        if str_eq(bound[i - 1].0.as_str(), name) {
            return Some(bound[i - 1].1);
        }
        i = i - 1;
    }
    None
}

/// A copy of a list of bindings.
pub fn copy_bindings(bound: &Vec<(String, usize)>) -> (r: Vec<(String, usize)>)
    ensures
        bindings_view(r@) == bindings_view(bound@),
{
    let mut r: Vec<(String, usize)> = Vec::new();
    let mut i: usize = 0;
    while i < bound.len()
        invariant
            i <= bound.len(),
            r@.len() == i,
            bindings_view(r@) == bindings_view(bound@).take(i as int),
        decreases bound.len() - i,
    {
        let ghost before = r@;
        let name = bound[i].0.clone();
        r.push((name, bound[i].1));
        assert(r@ == before.push(r@[i as int]));
        assert(bindings_view(r@) =~= bindings_view(before).push((bound@[i as int].0@, bound@[i as int].1 as nat)));
        assert(bindings_view(r@) =~= bindings_view(bound@).take(i + 1));
        i = i + 1;
    }
    r
}

fn copy_opt_tensor(o: &Option<TensorExpr>) -> (r: Option<TensorExpr>)
    ensures
        opt_tensor_model(r) == opt_tensor_model(*o),
{
    match o {
        Some(t) => Some(copy_tensor(t)),
        None => None,
    }
}

/// The value of element `k` of the set with display `latex` (see
/// [`set_value`]).
pub fn find_set_value(sets: &Vec<TensorSetValues>, latex: &str, k: usize) -> (r: Option<
    TensorExpr,
>)
    ensures
        opt_tensor_model(r) == set_value(sets_view(sets@), latex@, k as nat),
{
    let ghost sv = sets_view(sets@);
    let mut i: usize = 0;
    assert(sv.skip(0) =~= sv);
    while i < sets.len()
        invariant
            i <= sets.len(),
            sv == sets_view(sets@),
            set_value(sv, latex@, k as nat) == set_value(sv.skip(i as int), latex@, k as nat),
        decreases sets.len() - i,
    {
        let ghost rest = sv.skip(i as int);
        assert(rest[0] == sets@[i as int]@);
        assert(rest.drop_first() == sv.skip(i + 1));
        let set = &sets[i];
        if str_eq(set.latex.as_str(), latex) {
            match &set.values {
                Some(vals) => {
                    if 1 <= k && k <= vals.len() {
                        return copy_opt_tensor(&vals[k - 1]);
                    } else {
                        return None;
                    }
                },
                None => {},
            }
        }
        i = i + 1;
    }
    None
}

fn copy_base(o: &Option<Rc<TensorExpr>>) -> (r: Option<Rc<TensorExpr>>)
    ensures
        match *o {
            Some(b) => r is Some && tensor_model(*r->0) == tensor_model(*b),
            None => r is None,
        },
{
    match o {
        Some(b) => Some(Rc::new(copy_tensor(b))),
        None => None,
    }
}

fn copy_label(o: &Option<String>) -> (r: Option<String>)
    ensures
        opt_text(r) == opt_text(*o),
{
    match o {
        Some(s) => Some(s.clone()),
        None => None,
    }
}

pub open spec fn inst_result_ok(r: Result<TensorExpr, Error>, m: TensorModel) -> bool {
    r is Ok && r->Ok_0@ == m
}

pub open spec fn inst_result_err(r: Result<TensorExpr, Error>, msg: Seq<char>) -> bool {
    r is Err && r->Err_0@ == (ErrorModel { message: msg, line: None })
}

/// Expands `Σ_{index=1}^{range} body` under `bound` (see [`inst_sum`]).
pub fn instantiate_sum(
    index: &String,
    range: usize,
    exclude: &Option<String>,
    body: &TensorExpr,
    bound: &Vec<(String, usize)>,
    sets: &Vec<TensorSetValues>,
    requests: &mut Vec<ScalarRequest>,
) -> (r: Result<TensorExpr, Error>)
    ensures
        match inst_sum(
            index@,
            range as nat,
            opt_text(*exclude),
            body@,
            bindings_view(bound@),
            sets_view(sets@),
            requests_view(old(requests)@),
            1,
            None,
        ) {
            Ok((m, rs)) => inst_result_ok(r, m) && requests_view(final(requests)@) == rs,
            Err(msg) => inst_result_err(r, msg),
        },
    decreases body, 1nat,
{
    let ghost sv = sets_view(sets@);
    let ghost whole = inst_sum(
        index@,
        range as nat,
        opt_text(*exclude),
        body@,
        bindings_view(bound@),
        sv,
        requests_view(old(requests)@),
        1,
        None,
    );
    let mut cur = copy_bindings(bound);
    let mut acc: Option<TensorExpr> = None;
    let mut j: usize = 0;
    while j < range
        invariant
            j <= range,
            sv == sets_view(sets@),
            whole == inst_sum(
                index@,
                range as nat,
                opt_text(*exclude),
                body@,
                bindings_view(bound@),
                sv,
                requests_view(old(requests)@),
                1,
                None,
            ),
            whole == inst_sum(
                index@,
                range as nat,
                opt_text(*exclude),
                body@,
                bindings_view(cur@),
                sv,
                requests_view(requests@),
                (j + 1) as nat,
                opt_tensor_model(acc),
            ),
        decreases range - j,
    {
        let k = j + 1;
        let skip = match exclude {
            Some(ex) => match lookup_binding(&cur, ex.as_str()) {
                Some(v) => v == k,
                None => false,
            },
            None => false,
        };
        if !skip {
            let ghost cur_before = bindings_view(cur@);
            let name = index.clone();
            cur.push((name, k));
            assert(bindings_view(cur@) =~= cur_before.push((index@, k as nat)));
            let term = instantiate_tensor(body, &cur, sets, requests);
            match term {
                Ok(term) => {
                    acc = match acc {
                        Some(p) => Some(TensorExpr::Add(Rc::new(p), Rc::new(term))),
                        None => Some(term),
                    };
                },
                Err(e) => {
                    return Err(e);
                },
            }
        }
        j = j + 1;
    }
    match acc {
        Some(a) => Ok(a),
        None => Err(Error::msg(String::from_str("empty spectral sum"))),
    }
}

/// Instantiates `t` under `bound`, appending its scalar requests to
/// `requests` (see [`inst_spec`]).
pub fn instantiate_tensor(
    t: &TensorExpr,
    bound: &Vec<(String, usize)>,
    sets: &Vec<TensorSetValues>,
    requests: &mut Vec<ScalarRequest>,
) -> (r: Result<TensorExpr, Error>)
    ensures
        match inst_spec(t@, bindings_view(bound@), sets_view(sets@), requests_view(old(requests)@)) {
            Ok((m, rs)) => inst_result_ok(r, m) && requests_view(final(requests)@) == rs,
            Err(msg) => inst_result_err(r, msg),
        },
    decreases t, 0nat,
{
    match t {
        TensorExpr::SumIdx { index, range, exclude, body } => instantiate_sum(
            index,
            *range,
            exclude,
            body,
            bound,
            sets,
            requests,
        ),
        TensorExpr::SetElem { latex, order, dim, index, set_dim, base } => {
            let k = match index {
                SetIndex::Num(k) => Some(*k),
                SetIndex::Sym(name) => lookup_binding(bound, name.as_str()),
            };
            match k {
                Some(k) => match find_set_value(sets, latex.as_str(), k) {
                    Some(v) => Ok(v),
                    None => Ok(
                        TensorExpr::SetElem {
                            latex: latex.clone(),
                            order: *order,
                            dim: *dim,
                            index: SetIndex::Num(k),
                            set_dim: *set_dim,
                            base: copy_base(base),
                        },
                    ),
                },
                None => Ok(copy_tensor(t)),
            }
        },
        TensorExpr::Var { .. } | TensorExpr::Identity4 { .. } | TensorExpr::Filled { .. } => Ok(
            copy_tensor(t),
        ),
        TensorExpr::Transpose(a) => {
            let x = instantiate_tensor(a, bound, sets, requests)?;
            Ok(TensorExpr::Transpose(Rc::new(x)))
        },
        TensorExpr::Inverse(a) => {
            let x = instantiate_tensor(a, bound, sets, requests)?;
            Ok(TensorExpr::Inverse(Rc::new(x)))
        },
        TensorExpr::InverseTranspose(a) => {
            let x = instantiate_tensor(a, bound, sets, requests)?;
            Ok(TensorExpr::InverseTranspose(Rc::new(x)))
        },
        TensorExpr::Neg(a) => {
            let x = instantiate_tensor(a, bound, sets, requests)?;
            Ok(TensorExpr::Neg(Rc::new(x)))
        },
        TensorExpr::Power { base, exp } => {
            let x = instantiate_tensor(base, bound, sets, requests)?;
            Ok(TensorExpr::Power { base: Rc::new(x), exp: *exp })
        },
        TensorExpr::ScalarMul(s, a) => {
            let id = requests.len();
            let snapshot = copy_bindings(bound);
            let ghost before = requests@;
            requests.push(ScalarRequest { scalar: *s, bound: snapshot });
            assert(requests_view(requests@) =~= requests_view(before).push(
                RequestModel { scalar: *s, bound: bindings_view(bound@) },
            ));
            let x = instantiate_tensor(a, bound, sets, requests)?;
            Ok(TensorExpr::ScalarMul(id as ScalarId, Rc::new(x)))
        },
        TensorExpr::Diff { num, den, num_label } => {
            let x = instantiate_tensor(num, bound, sets, requests)?;
            let y = instantiate_tensor(den, bound, sets, requests)?;
            Ok(TensorExpr::Diff { num: Rc::new(x), den: Rc::new(y), num_label: copy_label(num_label) })
        },
        TensorExpr::MatMul(a, c) => {
            let x = instantiate_tensor(a, bound, sets, requests)?;
            let y = instantiate_tensor(c, bound, sets, requests)?;
            Ok(TensorExpr::MatMul(Rc::new(x), Rc::new(y)))
        },
        TensorExpr::Outer(a, c) => {
            let x = instantiate_tensor(a, bound, sets, requests)?;
            let y = instantiate_tensor(c, bound, sets, requests)?;
            Ok(TensorExpr::Outer(Rc::new(x), Rc::new(y)))
        },
        TensorExpr::BoxTimes(a, c) => {
            let x = instantiate_tensor(a, bound, sets, requests)?;
            let y = instantiate_tensor(c, bound, sets, requests)?;
            Ok(TensorExpr::BoxTimes(Rc::new(x), Rc::new(y)))
        },
        TensorExpr::Add(a, c) => {
            let x = instantiate_tensor(a, bound, sets, requests)?;
            let y = instantiate_tensor(c, bound, sets, requests)?;
            Ok(TensorExpr::Add(Rc::new(x), Rc::new(y)))
        },
        TensorExpr::Sub(a, c) => {
            let x = instantiate_tensor(a, bound, sets, requests)?;
            let y = instantiate_tensor(c, bound, sets, requests)?;
            Ok(TensorExpr::Sub(Rc::new(x), Rc::new(y)))
        },
    }
}

/// Instantiates `t` under the bindings `bound`: the instantiated
/// expression and the scalar requests it makes, in order (see
/// [`inst_spec`]).
pub fn instantiate(t: &TensorExpr, bound: &Vec<(String, usize)>, sets: &Vec<TensorSetValues>) -> (r:
    Result<(TensorExpr, Vec<ScalarRequest>), Error>)
    ensures
        match inst_spec(t@, bindings_view(bound@), sets_view(sets@), Seq::empty()) {
            Ok((m, rs)) => r is Ok && r->Ok_0.0@ == m && requests_view(r->Ok_0.1@) == rs,
            Err(msg) => r is Err && r->Err_0@ == (ErrorModel { message: msg, line: None }),
        },
{
    let mut requests: Vec<ScalarRequest> = Vec::new();
    assert(requests_view(requests@) =~= Seq::<RequestModel>::empty());
    match instantiate_tensor(t, bound, sets, &mut requests) {
        Ok(x) => Ok((x, requests)),
        Err(e) => Err(e),
    }
}

/// The id that factor `j` gets: `ids[j]`, or `j` itself past the end.
pub open spec fn renamed_id(ids: Seq<ScalarId>, j: ScalarId) -> ScalarId {
    if j < ids.len() {
        ids[j as int]
    } else {
        j
    }
}

/// `t` with the scalar factor of every scalar multiple renamed by
/// [`renamed_id`]; the entries of filled tensors and the decomposed base of
/// a set element are left as they are.
pub open spec fn rename_spec(t: TensorModel, ids: Seq<ScalarId>) -> TensorModel
    decreases t,
{
    match t {
        TensorModel::ScalarMul(s, a) => TensorModel::ScalarMul(
            renamed_id(ids, s),
            Box::new(rename_spec(*a, ids)),
        ),
        TensorModel::SumIdx { index, range, exclude, body } => TensorModel::SumIdx {
            index,
            range,
            exclude,
            body: Box::new(rename_spec(*body, ids)),
        },
        TensorModel::Transpose(a) => TensorModel::Transpose(Box::new(rename_spec(*a, ids))),
        TensorModel::Inverse(a) => TensorModel::Inverse(Box::new(rename_spec(*a, ids))),
        TensorModel::InverseTranspose(a) => TensorModel::InverseTranspose(
            Box::new(rename_spec(*a, ids)),
        ),
        TensorModel::Neg(a) => TensorModel::Neg(Box::new(rename_spec(*a, ids))),
        TensorModel::Power { base, exp } => TensorModel::Power {
            base: Box::new(rename_spec(*base, ids)),
            exp,
        },
        TensorModel::Diff { num, den, num_label } => TensorModel::Diff {
            num: Box::new(rename_spec(*num, ids)),
            den: Box::new(rename_spec(*den, ids)),
            num_label,
        },
        TensorModel::MatMul(a, c) => TensorModel::MatMul(
            Box::new(rename_spec(*a, ids)),
            Box::new(rename_spec(*c, ids)),
        ),
        TensorModel::Outer(a, c) => TensorModel::Outer(
            Box::new(rename_spec(*a, ids)),
            Box::new(rename_spec(*c, ids)),
        ),
        TensorModel::BoxTimes(a, c) => TensorModel::BoxTimes(
            Box::new(rename_spec(*a, ids)),
            Box::new(rename_spec(*c, ids)),
        ),
        TensorModel::Add(a, c) => TensorModel::Add(
            Box::new(rename_spec(*a, ids)),
            Box::new(rename_spec(*c, ids)),
        ),
        TensorModel::Sub(a, c) => TensorModel::Sub(
            Box::new(rename_spec(*a, ids)),
            Box::new(rename_spec(*c, ids)),
        ),
        _ => t,
    }
}

/// Puts the ids of the resolved scalars in place of the request positions
/// (see [`rename_spec`]).
pub fn rename_scalar_factors(t: &TensorExpr, ids: &Vec<ScalarId>) -> (r: TensorExpr)
    ensures
        r@ == rename_spec(t@, ids@),
    decreases t,
{
    match t {
        TensorExpr::ScalarMul(s, a) => {
            let id = if (*s as u128) < (ids.len() as u128) {
                ids[*s as usize]
            } else {
                *s
            };
            TensorExpr::ScalarMul(id, Rc::new(rename_scalar_factors(a, ids)))
        },
        TensorExpr::SumIdx { index, range, exclude, body } => TensorExpr::SumIdx {
            index: index.clone(),
            range: *range,
            exclude: copy_label(exclude),
            body: Rc::new(rename_scalar_factors(body, ids)),
        },
        TensorExpr::Transpose(a) => TensorExpr::Transpose(Rc::new(rename_scalar_factors(a, ids))),
        TensorExpr::Inverse(a) => TensorExpr::Inverse(Rc::new(rename_scalar_factors(a, ids))),
        TensorExpr::InverseTranspose(a) => TensorExpr::InverseTranspose(
            Rc::new(rename_scalar_factors(a, ids)),
        ),
        TensorExpr::Neg(a) => TensorExpr::Neg(Rc::new(rename_scalar_factors(a, ids))),
        TensorExpr::Power { base, exp } => TensorExpr::Power {
            base: Rc::new(rename_scalar_factors(base, ids)),
            exp: *exp,
        },
        TensorExpr::Diff { num, den, num_label } => TensorExpr::Diff {
            num: Rc::new(rename_scalar_factors(num, ids)),
            den: Rc::new(rename_scalar_factors(den, ids)),
            num_label: copy_label(num_label),
        },
        TensorExpr::MatMul(a, c) => TensorExpr::MatMul(
            Rc::new(rename_scalar_factors(a, ids)),
            Rc::new(rename_scalar_factors(c, ids)),
        ),
        TensorExpr::Outer(a, c) => TensorExpr::Outer(
            Rc::new(rename_scalar_factors(a, ids)),
            Rc::new(rename_scalar_factors(c, ids)),
        ),
        TensorExpr::BoxTimes(a, c) => TensorExpr::BoxTimes(
            Rc::new(rename_scalar_factors(a, ids)),
            Rc::new(rename_scalar_factors(c, ids)),
        ),
        TensorExpr::Add(a, c) => TensorExpr::Add(
            Rc::new(rename_scalar_factors(a, ids)),
            Rc::new(rename_scalar_factors(c, ids)),
        ),
        TensorExpr::Sub(a, c) => TensorExpr::Sub(
            Rc::new(rename_scalar_factors(a, ids)),
            Rc::new(rename_scalar_factors(c, ids)),
        ),
        _ => copy_tensor(t),
    }
}

/// An expression with nothing to instantiate: no spectral sum and no set
/// element.
pub open spec fn plain(t: TensorModel) -> bool
    decreases t,
{
    match t {
        TensorModel::SumIdx { .. } => false,
        TensorModel::SetElem { .. } => false,
        TensorModel::Transpose(a) => plain(*a),
        TensorModel::Inverse(a) => plain(*a),
        TensorModel::InverseTranspose(a) => plain(*a),
        TensorModel::Neg(a) => plain(*a),
        TensorModel::Power { base, .. } => plain(*base),
        TensorModel::ScalarMul(_, a) => plain(*a),
        TensorModel::Diff { num, den, .. } => plain(*num) && plain(*den),
        TensorModel::MatMul(a, c) => plain(*a) && plain(*c),
        TensorModel::Outer(a, c) => plain(*a) && plain(*c),
        TensorModel::BoxTimes(a, c) => plain(*a) && plain(*c),
        TensorModel::Add(a, c) => plain(*a) && plain(*c),
        TensorModel::Sub(a, c) => plain(*a) && plain(*c),
        _ => true,
    }
}

/// The number of scalar multiples in `t`.
pub open spec fn factor_count(t: TensorModel) -> nat
    decreases t,
{
    match t {
        TensorModel::ScalarMul(_, a) => 1 + factor_count(*a),
        TensorModel::SumIdx { body, .. } => factor_count(*body),
        TensorModel::Transpose(a) => factor_count(*a),
        TensorModel::Inverse(a) => factor_count(*a),
        TensorModel::InverseTranspose(a) => factor_count(*a),
        TensorModel::Neg(a) => factor_count(*a),
        TensorModel::Power { base, .. } => factor_count(*base),
        TensorModel::Diff { num, den, .. } => factor_count(*num) + factor_count(*den),
        TensorModel::MatMul(a, c) => factor_count(*a) + factor_count(*c),
        TensorModel::Outer(a, c) => factor_count(*a) + factor_count(*c),
        TensorModel::BoxTimes(a, c) => factor_count(*a) + factor_count(*c),
        TensorModel::Add(a, c) => factor_count(*a) + factor_count(*c),
        TensorModel::Sub(a, c) => factor_count(*a) + factor_count(*c),
        _ => 0,
    }
}

/// The number of nodes of `t`.
pub open spec fn node_count(t: TensorModel) -> nat
    decreases t,
{
    1 + match t {
        TensorModel::ScalarMul(_, a) => node_count(*a),
        TensorModel::SumIdx { body, .. } => node_count(*body),
        TensorModel::Transpose(a) => node_count(*a),
        TensorModel::Inverse(a) => node_count(*a),
        TensorModel::InverseTranspose(a) => node_count(*a),
        TensorModel::Neg(a) => node_count(*a),
        TensorModel::Power { base, .. } => node_count(*base),
        TensorModel::Diff { num, den, .. } => node_count(*num) + node_count(*den),
        TensorModel::MatMul(a, c) => node_count(*a) + node_count(*c),
        TensorModel::Outer(a, c) => node_count(*a) + node_count(*c),
        TensorModel::BoxTimes(a, c) => node_count(*a) + node_count(*c),
        TensorModel::Add(a, c) => node_count(*a) + node_count(*c),
        TensorModel::Sub(a, c) => node_count(*a) + node_count(*c),
        _ => 0,
    }
}

/// `ids` names, from position `lo` on, the scalars of the requests `rs`.
pub open spec fn names_requests(ids: Seq<ScalarId>, rs: Seq<RequestModel>, lo: int) -> bool {
    &&& ids.len() >= rs.len()
    &&& forall|j: int| lo <= j < rs.len() ==> #[trigger] ids[j] == rs[j].scalar
}

proof fn lemma_plain_inst(
    t: TensorModel,
    b: Seq<(Seq<char>, nat)>,
    sets: Seq<SetValuesModel>,
    reqs: Seq<RequestModel>,
    ids: Seq<ScalarId>,
)
    requires
        plain(t),
        reqs.len() + factor_count(t) <= u64::MAX + 1,
    ensures
        inst_spec(t, b, sets, reqs) is Ok,
        inst_spec(t, b, sets, reqs)->Ok_0.1.len() == reqs.len() + factor_count(t),
        forall|j: int|
            0 <= j < reqs.len() ==> #[trigger] inst_spec(t, b, sets, reqs)->Ok_0.1[j] == reqs[j],
        names_requests(ids, inst_spec(t, b, sets, reqs)->Ok_0.1, reqs.len() as int) ==> rename_spec(
            inst_spec(t, b, sets, reqs)->Ok_0.0,
            ids,
        ) == t,
    decreases node_count(t), 1nat,
{
    match t {
        TensorModel::Transpose(a) => lemma_plain_inst(*a, b, sets, reqs, ids),
        TensorModel::Inverse(a) => lemma_plain_inst(*a, b, sets, reqs, ids),
        TensorModel::InverseTranspose(a) => lemma_plain_inst(*a, b, sets, reqs, ids),
        TensorModel::Neg(a) => lemma_plain_inst(*a, b, sets, reqs, ids),
        TensorModel::Power { base, .. } => lemma_plain_inst(*base, b, sets, reqs, ids),
        TensorModel::ScalarMul(s, a) => {
            let req = RequestModel { scalar: s, bound: b };
            let reqs2 = reqs.push(req);
            lemma_plain_inst(*a, b, sets, reqs2, ids);
            let rs = inst_spec(*a, b, sets, reqs2)->Ok_0.1;
            assert(rs[reqs.len() as int] == reqs2[reqs.len() as int]);
            assert forall|j: int| 0 <= j < reqs.len() implies #[trigger] rs[j] == reqs[j] by {
                assert(rs[j] == reqs2[j]);
            }
            if names_requests(ids, rs, reqs.len() as int) {
                assert(ids[reqs.len() as int] == rs[reqs.len() as int].scalar);
            }
        },
        TensorModel::Diff { num, den, .. } => lemma_plain_pair(*num, *den, b, sets, reqs, ids),
        TensorModel::MatMul(a, c) => lemma_plain_pair(*a, *c, b, sets, reqs, ids),
        TensorModel::Outer(a, c) => lemma_plain_pair(*a, *c, b, sets, reqs, ids),
        TensorModel::BoxTimes(a, c) => lemma_plain_pair(*a, *c, b, sets, reqs, ids),
        TensorModel::Add(a, c) => lemma_plain_pair(*a, *c, b, sets, reqs, ids),
        TensorModel::Sub(a, c) => lemma_plain_pair(*a, *c, b, sets, reqs, ids),
        _ => {},
    }
}

proof fn lemma_plain_pair(
    a: TensorModel,
    c: TensorModel,
    b: Seq<(Seq<char>, nat)>,
    sets: Seq<SetValuesModel>,
    reqs: Seq<RequestModel>,
    ids: Seq<ScalarId>,
)
    requires
        plain(a),
        plain(c),
        reqs.len() + factor_count(a) + factor_count(c) <= u64::MAX + 1,
    ensures
        inst_spec(a, b, sets, reqs) is Ok,
        inst_spec(c, b, sets, inst_spec(a, b, sets, reqs)->Ok_0.1) is Ok,
        ({
            let r1 = inst_spec(a, b, sets, reqs)->Ok_0;
            let r2 = inst_spec(c, b, sets, r1.1)->Ok_0;
            &&& r2.1.len() == reqs.len() + factor_count(a) + factor_count(c)
            &&& forall|j: int| 0 <= j < reqs.len() ==> #[trigger] r2.1[j] == reqs[j]
            &&& names_requests(ids, r2.1, reqs.len() as int) ==> rename_spec(r1.0, ids) == a
                && rename_spec(r2.0, ids) == c
        }),
    decreases node_count(a) + node_count(c), 0nat,
{
    lemma_plain_inst(a, b, sets, reqs, ids);
    let r1 = inst_spec(a, b, sets, reqs)->Ok_0;
    lemma_plain_inst(c, b, sets, r1.1, ids);
    let r2 = inst_spec(c, b, sets, r1.1)->Ok_0;
    assert forall|j: int| 0 <= j < reqs.len() implies #[trigger] r2.1[j] == reqs[j] by {
        assert(r2.1[j] == r1.1[j]);
        assert(r1.1[j] == reqs[j]);
    }
    if names_requests(ids, r2.1, reqs.len() as int) {
        assert forall|j: int| reqs.len() <= j < r1.1.len() implies #[trigger] ids[j]
            == r1.1[j].scalar by {
            assert(r2.1[j] == r1.1[j]);
            assert(ids[j] == r2.1[j].scalar);
        }
        assert(names_requests(ids, r1.1, reqs.len() as int));
    }
}

/// The scalars that requests ask to instantiate, in order.
pub open spec fn requested_scalars(rs: Seq<RequestModel>) -> Seq<ScalarId> {
    rs.map_values(|r: RequestModel| r.scalar)
}

/// An expression with no spectral sum and no set element instantiates
/// without error, makes one request per scalar multiple, and putting the
/// requested scalars back in place of the request positions gives the
/// expression back.
pub proof fn law_plain_instantiation_round_trip(
    t: TensorModel,
    b: Seq<(Seq<char>, nat)>,
    sets: Seq<SetValuesModel>,
)
    requires
        plain(t),
        factor_count(t) <= u64::MAX + 1,
    ensures
        inst_spec(t, b, sets, Seq::empty()) is Ok,
        inst_spec(t, b, sets, Seq::empty())->Ok_0.1.len() == factor_count(t),
        rename_spec(
            inst_spec(t, b, sets, Seq::empty())->Ok_0.0,
            requested_scalars(inst_spec(t, b, sets, Seq::empty())->Ok_0.1),
        ) == t,
{
    let rs0 = inst_spec(t, b, sets, Seq::empty());
    lemma_plain_inst(t, b, sets, Seq::empty(), requested_scalars(rs0->Ok_0.1));
    let rs = rs0->Ok_0.1;
    assert(names_requests(requested_scalars(rs), rs, 0));
}

} // verus!
