//! User-visible symbol metadata and display capabilities: what kind of value
//! a name denotes, what tensor characteristics are known, and which display
//! modes are meaningful for it.

use vstd::prelude::*;
use crate::tensor::{ScalarId, TensorExpr, TensorModel, TensorProperties, dim_of, is_identity_m, order_of, sized, symmetric_m};
use crate::checks::{default_tensor_label, default_tensor_label_spec};
use crate::error::{Error, ErrorModel};
use crate::text::{chars_of, concat_str, decimal, decimal_string, str_eq};

verus! {

#[derive(Debug, Clone, PartialEq, Eq)]
pub enum ValueKind {
    Scalar,
    ScalarFunctionLike,
    Tensor { order: usize, dim: usize },
    ScalarSet { dim: usize },
    VectorSet { dim: usize },
}

#[derive(Debug, Clone, PartialEq, Eq)]
pub struct TensorCharacteristic {
    pub order: usize,
    pub dim: usize,
    pub symmetric: bool,
    pub identity: bool,
    pub antisymmetric: bool,
    pub orthogonal: bool,
    pub isotropic: bool,
    pub filled: bool,
    pub derived: bool,
    pub derivative: bool,
    pub spectral: bool,
    pub sum: bool,
    pub outer_like: bool,
    pub boxtimes_like: bool,
}

#[derive(Debug, Clone, Copy, PartialEq, Eq)]
pub enum DisplayCapabilityState {
    Available,
    UnsupportedRenderer,
    InvalidForType,
}

#[derive(Debug, Clone, PartialEq, Eq)]
pub struct DisplayCapability {
    pub mode: String,
    pub state: DisplayCapabilityState,
    pub message: Option<String>,
}

#[derive(Debug, Clone, PartialEq, Eq)]
pub struct SymbolInfo {
    pub name: String,
    pub latex: String,
    pub kind: ValueKind,
    pub characteristic: Option<TensorCharacteristic>,
    pub display_modes: Vec<DisplayCapability>,
}

/// Mathematical model of a [`DisplayCapability`].
pub struct CapabilityModel {
    pub mode: Seq<char>,
    pub state: DisplayCapabilityState,
    pub message: Option<Seq<char>>,
}

impl View for DisplayCapability {
    type V = CapabilityModel;

    open spec fn view(&self) -> CapabilityModel {
        CapabilityModel {
            mode: self.mode@,
            state: self.state,
            message: match self.message {
                Some(m) => Some(m@),
                None => None,
            },
        }
    }
}

impl DisplayCapability {
    pub fn available(mode: &str) -> (c: Self)
        ensures
            c@ == (CapabilityModel { mode: mode@, state: DisplayCapabilityState::Available, message: None }),
    {
        Self { mode: String::from_str(mode), state: DisplayCapabilityState::Available, message: None }
    }

    pub fn invalid(mode: &str, message: String) -> (c: Self)
        ensures
            c@ == (CapabilityModel {
                mode: mode@,
                state: DisplayCapabilityState::InvalidForType,
                message: Some(message@),
            }),
    {
        Self {
            mode: String::from_str(mode),
            state: DisplayCapabilityState::InvalidForType,
            message: Some(message),
        }
    }

    pub fn unsupported(mode: &str, message: String) -> (c: Self)
        ensures
            c@ == (CapabilityModel {
                mode: mode@,
                state: DisplayCapabilityState::UnsupportedRenderer,
                message: Some(message@),
            }),
    {
        Self {
            mode: String::from_str(mode),
            state: DisplayCapabilityState::UnsupportedRenderer,
            message: Some(message),
        }
    }
}

pub open spec fn available(mode: Seq<char>) -> CapabilityModel {
    CapabilityModel { mode, state: DisplayCapabilityState::Available, message: None }
}

pub open spec fn invalid(mode: Seq<char>, message: Seq<char>) -> CapabilityModel {
    CapabilityModel { mode, state: DisplayCapabilityState::InvalidForType, message: Some(message) }
}

/// Whether display mode `mode` is meaningful for a value of kind `kind`,
/// and if not, why: `symbol` suits every kind; `components` and `matrix`
/// suit tensors of order 1 or 2; `block_components` suits order-4 tensors;
/// any other mode is unknown.
pub open spec fn capability_spec(kind: ValueKind, mode: Seq<char>) -> CapabilityModel {
    let is_symbol = mode == "symbol"@;
    let is_matrix_like = mode == "components"@ || mode == "matrix"@;
    let is_block = mode == "block_components"@;
    match kind {
        ValueKind::Scalar | ValueKind::ScalarFunctionLike => if is_symbol {
            available(mode)
        } else {
            invalid(mode, "mode="@ + mode + " is not available for scalar values (supported: symbol)"@)
        },
        ValueKind::ScalarSet { .. } | ValueKind::VectorSet { .. } => if is_symbol {
            available(mode)
        } else {
            invalid(mode, "set display only supports mode=symbol"@)
        },
        ValueKind::Tensor { order, .. } => if is_symbol {
            available(mode)
        } else if is_matrix_like {
            if order == 1 || order == 2 {
                available(mode)
            } else {
                invalid(
                    mode,
                    "mode="@ + mode
                        + " is only available for order-1 or order-2 tensors; this tensor has order "@
                        + decimal(order as nat),
                )
            }
        } else if is_block {
            if order == 4 {
                available(mode)
            } else {
                invalid(
                    mode,
                    "mode=block_components is only available for order-4 tensors; this tensor has order "@
                        + decimal(order as nat),
                )
            }
        } else {
            invalid(mode, "unknown display mode `"@ + mode + "`"@)
        },
    }
}

/// The display modes offered for every value, in order.
pub open spec fn display_modes() -> Seq<Seq<char>> {
    seq!["symbol"@, "components"@, "matrix"@, "block_components"@]
}

pub fn display_capability_for_kind(kind: &ValueKind, mode: &str) -> (c: DisplayCapability)
    ensures
        c@ == capability_spec(*kind, mode@),
{
    let is_symbol = str_eq(mode, "symbol");
    let is_matrix_like = str_eq(mode, "components") || str_eq(mode, "matrix");
    let is_block = str_eq(mode, "block_components");
    match kind {
        ValueKind::Scalar | ValueKind::ScalarFunctionLike => {
            if is_symbol {
                DisplayCapability::available(mode)
            } else {
                let mut m = concat_str("mode=", mode);
                m.append(" is not available for scalar values (supported: symbol)");
                DisplayCapability::invalid(mode, m)
            }
        },
        ValueKind::ScalarSet { .. } | ValueKind::VectorSet { .. } => {
            if is_symbol {
                DisplayCapability::available(mode)
            } else {
                DisplayCapability::invalid(mode, String::from_str("set display only supports mode=symbol"))
            }
        },
        ValueKind::Tensor { order, .. } => {
            if is_symbol {
                DisplayCapability::available(mode)
            } else if is_matrix_like {
                if *order == 1 || *order == 2 {
                    DisplayCapability::available(mode)
                } else {
                    let mut m = concat_str("mode=", mode);
                    m.append(" is only available for order-1 or order-2 tensors; this tensor has order ");
                    let d = decimal_string(*order);
                    m.append(d.as_str());
                    DisplayCapability::invalid(mode, m)
                }
            } else if is_block {
                if *order == 4 {
                    DisplayCapability::available(mode)
                } else {
                    let mut m = String::from_str(
                        "mode=block_components is only available for order-4 tensors; this tensor has order ",
                    );
                    let d = decimal_string(*order);
                    m.append(d.as_str());
                    DisplayCapability::invalid(mode, m)
                }
            } else {
                let mut m = concat_str("unknown display mode `", mode);
                m.append("`");
                DisplayCapability::invalid(mode, m)
            }
        },
    }
}

/// The capabilities of a kind for each of the display modes, in the order
/// `symbol`, `components`, `matrix`, `block_components`.
pub fn display_capabilities_for_kind(kind: &ValueKind) -> (v: Vec<DisplayCapability>)
    ensures
        v@.len() == 4,
        forall|i: int| 0 <= i < 4 ==> #[trigger] v@[i]@ == capability_spec(*kind, display_modes()[i]),
{
    let mut v = Vec::new();
    v.push(display_capability_for_kind(kind, "symbol"));
    v.push(display_capability_for_kind(kind, "components"));
    v.push(display_capability_for_kind(kind, "matrix"));
    v.push(display_capability_for_kind(kind, "block_components"));
    v
}


/// What asking for a capability gives: nothing to object to when the mode
/// is available or only lacks a renderer; otherwise its message, or a
/// generic one.
pub open spec fn ensure_capability_spec(c: CapabilityModel) -> Result<(), Seq<char>> {
    match c.state {
        DisplayCapabilityState::InvalidForType => Err(
            match c.message {
                Some(m) => m,
                None => "mode="@ + c.mode + " is not available"@,
            },
        ),
        _ => Ok(()),
    }
}

pub open spec fn unit_result_matches(r: Result<(), Error>, s: Result<(), Seq<char>>) -> bool {
    match s {
        Ok(_) => r is Ok,
        Err(m) => r is Err && r->Err_0@ == (ErrorModel { message: m, line: None }),
    }
}

/// Refuses a display mode that is invalid for the value's type (see
/// [`ensure_capability_spec`]).
pub fn ensure_display_capability(c: &DisplayCapability) -> (r: Result<(), Error>)
    ensures
        unit_result_matches(r, ensure_capability_spec(c@)),
{
    match c.state {
        DisplayCapabilityState::InvalidForType => {
            let m = match &c.message {
                Some(m) => m.clone(),
                None => {
                    let mut m = concat_str("mode=", c.mode.as_str());
                    m.append(" is not available");
                    m
                },
            };
            Err(Error::msg(m))
        },
        _ => Ok(()),
    }
}

/// A derivative `∂A/∂B` is shown component-wise whatever its order: for
/// it `components` and `matrix` are always available.
pub open spec fn value_capability_spec(kind: ValueKind, mode: Seq<char>, derivative: bool) -> CapabilityModel {
    if derivative && (mode == "components"@ || mode == "matrix"@) {
        available(mode)
    } else {
        capability_spec(kind, mode)
    }
}

/// Refuses display mode `mode` for a value of kind `kind`; `derivative`
/// tells whether the value is a derivative node.
pub fn ensure_display_mode(kind: &ValueKind, mode: &str, derivative: bool) -> (r: Result<(), Error>)
    ensures
        unit_result_matches(r, ensure_capability_spec(value_capability_spec(*kind, mode@, derivative))),
{
    if derivative && (str_eq(mode, "components") || str_eq(mode, "matrix")) {
        return Ok(());
    }
    let c = display_capability_for_kind(kind, mode);
    ensure_display_capability(&c)
}

/// The capabilities offered for a value, in the order of
/// [`display_modes`].
pub fn display_capabilities_for_value(kind: &ValueKind, derivative: bool) -> (v: Vec<DisplayCapability>)
    ensures
        v@.len() == 4,
        forall|i: int|
            0 <= i < 4 ==> #[trigger] v@[i]@ == value_capability_spec(*kind, display_modes()[i], derivative),
{
    let mut v = display_capabilities_for_kind(kind);
    if derivative {
        v.set(1, DisplayCapability::available("components"));
        v.set(2, DisplayCapability::available("matrix"));
    }
    proof {
        reveal_strlit("symbol");
        reveal_strlit("components");
        reveal_strlit("matrix");
        reveal_strlit("block_components");
        assert(display_modes()[0] == "symbol"@);
        assert(display_modes()[3] == "block_components"@);
        assert("symbol"@[0] != "components"@[0] && "symbol"@[0] != "matrix"@[0]);
        assert("block_components"@[0] != "components"@[0] && "block_components"@[0] != "matrix"@[0]);
    }
    v
}

/// The left-hand side shown for `name.show(...)`: the declared label, else
/// for a one-character tensor name its default symbol, else the name.
pub open spec fn display_lhs_spec(name: Seq<char>, label: Option<Seq<char>>, tensor_order: Option<
    nat,
>) -> Seq<char> {
    match label {
        Some(l) => l,
        None => match tensor_order {
            Some(o) => if name.len() == 1 {
                default_tensor_label_spec(name, o)
            } else {
                name
            },
            None => name,
        },
    }
}

/// See [`display_lhs_spec`]; `tensor_order` is the order of the named
/// value when it is a tensor.
pub fn display_lhs(name: &str, label: &Option<String>, tensor_order: Option<usize>) -> (s: String)
    ensures
        s@ == display_lhs_spec(
            name@,
            match label {
                Some(l) => Some(l@),
                None => None,
            },
            match tensor_order {
                Some(o) => Some(o as nat),
                None => None,
            },
        ),
{
    match label {
        Some(l) => l.clone(),
        None => match tensor_order {
            Some(o) => {
                let chars = chars_of(name);
                if chars.len() == 1 {
                    default_tensor_label(name, o)
                } else {
                    String::from_str(name)
                }
            },
            None => String::from_str(name),
        },
    }
}

/// Whether some entry is among `ids`.
pub open spec fn any_listed(entries: Seq<ScalarId>, ids: Seq<ScalarId>) -> bool {
    exists|i: int| 0 <= i < entries.len() && ids.contains(#[trigger] entries[i])
}

fn listed(id: ScalarId, ids: &Vec<ScalarId>) -> (r: bool)
    ensures
        r == ids@.contains(id),
{
    let mut i: usize = 0;
    while i < ids.len()
        invariant
            i <= ids@.len(),
            forall|k: int| 0 <= k < i ==> ids@[k] != id,
        decreases ids.len() - i,
    {
        if ids[i] == id {
            return true;
        }
        i = i + 1;
    }
    false
}

fn any_entry_listed(entries: &Vec<ScalarId>, ids: &Vec<ScalarId>) -> (r: bool)
    ensures
        r == any_listed(entries@, ids@),
{
    let mut i: usize = 0;
    while i < entries.len()
        invariant
            i <= entries@.len(),
            forall|k: int| 0 <= k < i ==> !ids@.contains(#[trigger] entries@[k]),
        decreases entries.len() - i,
    {
        if listed(entries[i], ids) {
            return true;
        }
        i = i + 1;
    }
    false
}

/// Whether a derivative node occurs, counting the scalar entries of filled
/// tensors listed in `diff_scalars` (those whose expression holds one).
pub open spec fn has_diff(m: TensorModel, diff_scalars: Seq<ScalarId>) -> bool
    decreases m,
{
    match m {
        TensorModel::Diff { .. } => true,
        TensorModel::Var { .. } => false,
        TensorModel::Identity4 { .. } => false,
        TensorModel::SetElem { .. } => false,
        TensorModel::Filled { entries, .. } => any_listed(entries, diff_scalars),
        TensorModel::Transpose(a) => has_diff(*a, diff_scalars),
        TensorModel::Inverse(a) => has_diff(*a, diff_scalars),
        TensorModel::InverseTranspose(a) => has_diff(*a, diff_scalars),
        TensorModel::Neg(a) => has_diff(*a, diff_scalars),
        TensorModel::ScalarMul(_, a) => has_diff(*a, diff_scalars),
        TensorModel::Power { base, .. } => has_diff(*base, diff_scalars),
        TensorModel::MatMul(a, b) => has_diff(*a, diff_scalars) || has_diff(*b, diff_scalars),
        TensorModel::Add(a, b) => has_diff(*a, diff_scalars) || has_diff(*b, diff_scalars),
        TensorModel::Sub(a, b) => has_diff(*a, diff_scalars) || has_diff(*b, diff_scalars),
        TensorModel::Outer(a, b) => has_diff(*a, diff_scalars) || has_diff(*b, diff_scalars),
        TensorModel::BoxTimes(a, b) => has_diff(*a, diff_scalars) || has_diff(*b, diff_scalars),
        TensorModel::SumIdx { body, .. } => has_diff(*body, diff_scalars),
    }
}

pub fn contains_diff(t: &TensorExpr, diff_scalars: &Vec<ScalarId>) -> (r: bool)
    ensures
        r == has_diff(t@, diff_scalars@),
    decreases t,
{
    match t {
        TensorExpr::Diff { .. } => true,
        TensorExpr::Var { .. } => false,
        TensorExpr::Identity4 { .. } => false,
        TensorExpr::SetElem { .. } => false,
        TensorExpr::Filled { entries, .. } => any_entry_listed(entries, diff_scalars),
        TensorExpr::Transpose(a) => contains_diff(a, diff_scalars),
        TensorExpr::Inverse(a) => contains_diff(a, diff_scalars),
        TensorExpr::InverseTranspose(a) => contains_diff(a, diff_scalars),
        TensorExpr::Neg(a) => contains_diff(a, diff_scalars),
        TensorExpr::ScalarMul(_, a) => contains_diff(a, diff_scalars),
        TensorExpr::Power { base, .. } => contains_diff(base, diff_scalars),
        TensorExpr::MatMul(a, b) => contains_diff(a, diff_scalars) || contains_diff(b, diff_scalars),
        TensorExpr::Add(a, b) => contains_diff(a, diff_scalars) || contains_diff(b, diff_scalars),
        TensorExpr::Sub(a, b) => contains_diff(a, diff_scalars) || contains_diff(b, diff_scalars),
        TensorExpr::Outer(a, b) => contains_diff(a, diff_scalars) || contains_diff(b, diff_scalars),
        TensorExpr::BoxTimes(a, b) => contains_diff(a, diff_scalars) || contains_diff(b, diff_scalars),
        TensorExpr::SumIdx { body, .. } => contains_diff(body, diff_scalars),
    }
}

/// Whether a set element occurs, counting scalar factors listed in
/// `set_scalars` (those whose expression holds one).
pub open spec fn has_set_elem(m: TensorModel, set_scalars: Seq<ScalarId>) -> bool
    decreases m,
{
    match m {
        TensorModel::SetElem { .. } => true,
        TensorModel::Var { .. } => false,
        TensorModel::Identity4 { .. } => false,
        TensorModel::Filled { .. } => false,
        TensorModel::Transpose(a) => has_set_elem(*a, set_scalars),
        TensorModel::Inverse(a) => has_set_elem(*a, set_scalars),
        TensorModel::InverseTranspose(a) => has_set_elem(*a, set_scalars),
        TensorModel::Neg(a) => has_set_elem(*a, set_scalars),
        TensorModel::Power { base, .. } => has_set_elem(*base, set_scalars),
        TensorModel::ScalarMul(s, a) => set_scalars.contains(s) || has_set_elem(*a, set_scalars),
        TensorModel::Diff { num, den, .. } => has_set_elem(*num, set_scalars) || has_set_elem(
            *den,
            set_scalars,
        ),
        TensorModel::MatMul(a, b) => has_set_elem(*a, set_scalars) || has_set_elem(*b, set_scalars),
        TensorModel::Add(a, b) => has_set_elem(*a, set_scalars) || has_set_elem(*b, set_scalars),
        TensorModel::Sub(a, b) => has_set_elem(*a, set_scalars) || has_set_elem(*b, set_scalars),
        TensorModel::Outer(a, b) => has_set_elem(*a, set_scalars) || has_set_elem(*b, set_scalars),
        TensorModel::BoxTimes(a, b) => has_set_elem(*a, set_scalars) || has_set_elem(*b, set_scalars),
        TensorModel::SumIdx { body, .. } => has_set_elem(*body, set_scalars),
    }
}

pub fn contains_set_elem(t: &TensorExpr, set_scalars: &Vec<ScalarId>) -> (r: bool)
    ensures
        r == has_set_elem(t@, set_scalars@),
    decreases t,
{
    match t {
        TensorExpr::SetElem { .. } => true,
        TensorExpr::Var { .. } => false,
        TensorExpr::Identity4 { .. } => false,
        TensorExpr::Filled { .. } => false,
        TensorExpr::Transpose(a) => contains_set_elem(a, set_scalars),
        TensorExpr::Inverse(a) => contains_set_elem(a, set_scalars),
        TensorExpr::InverseTranspose(a) => contains_set_elem(a, set_scalars),
        TensorExpr::Neg(a) => contains_set_elem(a, set_scalars),
        TensorExpr::Power { base, .. } => contains_set_elem(base, set_scalars),
        TensorExpr::ScalarMul(s, a) => listed(*s, set_scalars) || contains_set_elem(a, set_scalars),
        TensorExpr::Diff { num, den, .. } => contains_set_elem(num, set_scalars) || contains_set_elem(
            den,
            set_scalars,
        ),
        TensorExpr::MatMul(a, b) => contains_set_elem(a, set_scalars) || contains_set_elem(b, set_scalars),
        TensorExpr::Add(a, b) => contains_set_elem(a, set_scalars) || contains_set_elem(b, set_scalars),
        TensorExpr::Sub(a, b) => contains_set_elem(a, set_scalars) || contains_set_elem(b, set_scalars),
        TensorExpr::Outer(a, b) => contains_set_elem(a, set_scalars) || contains_set_elem(b, set_scalars),
        TensorExpr::BoxTimes(a, b) => contains_set_elem(a, set_scalars) || contains_set_elem(
            b,
            set_scalars,
        ),
        TensorExpr::SumIdx { body, .. } => contains_set_elem(body, set_scalars),
    }
}

/// Which structural node a search looks for.
#[derive(Debug, Clone, Copy, PartialEq, Eq)]
pub enum NodeKind {
    Sum,
    Outer,
    BoxTimes,
    Filled,
}

/// Whether the node itself is of kind `k`.
pub open spec fn node_is(m: TensorModel, k: NodeKind) -> bool {
    match k {
        NodeKind::Sum => m is SumIdx,
        NodeKind::Outer => m is Outer,
        NodeKind::BoxTimes => m is BoxTimes,
        NodeKind::Filled => m is Filled,
    }
}

/// Whether a node of kind `k` occurs (set elements are not searched).
pub open spec fn has_node(m: TensorModel, k: NodeKind) -> bool
    decreases m,
{
    node_is(m, k) || match m {
        TensorModel::Var { .. } => false,
        TensorModel::Identity4 { .. } => false,
        TensorModel::SetElem { .. } => false,
        TensorModel::Filled { .. } => false,
        TensorModel::Transpose(a) => has_node(*a, k),
        TensorModel::Inverse(a) => has_node(*a, k),
        TensorModel::InverseTranspose(a) => has_node(*a, k),
        TensorModel::Neg(a) => has_node(*a, k),
        TensorModel::ScalarMul(_, a) => has_node(*a, k),
        TensorModel::Power { base, .. } => has_node(*base, k),
        TensorModel::Diff { num, den, .. } => has_node(*num, k) || has_node(*den, k),
        TensorModel::MatMul(a, b) => has_node(*a, k) || has_node(*b, k),
        TensorModel::Add(a, b) => has_node(*a, k) || has_node(*b, k),
        TensorModel::Sub(a, b) => has_node(*a, k) || has_node(*b, k),
        TensorModel::Outer(a, b) => has_node(*a, k) || has_node(*b, k),
        TensorModel::BoxTimes(a, b) => has_node(*a, k) || has_node(*b, k),
        TensorModel::SumIdx { body, .. } => has_node(*body, k),
    }
}

pub fn contains_node(t: &TensorExpr, k: NodeKind) -> (r: bool)
    ensures
        r == has_node(t@, k),
    decreases t,
{
    let here = match (k, t) {
        (NodeKind::Sum, TensorExpr::SumIdx { .. }) => true,
        (NodeKind::Outer, TensorExpr::Outer(..)) => true,
        (NodeKind::BoxTimes, TensorExpr::BoxTimes(..)) => true,
        (NodeKind::Filled, TensorExpr::Filled { .. }) => true,
        _ => false,
    };
    if here {
        return true;
    }
    match t {
        TensorExpr::Var { .. } => false,
        TensorExpr::Identity4 { .. } => false,
        TensorExpr::SetElem { .. } => false,
        TensorExpr::Filled { .. } => false,
        TensorExpr::Transpose(a) => contains_node(a, k),
        TensorExpr::Inverse(a) => contains_node(a, k),
        TensorExpr::InverseTranspose(a) => contains_node(a, k),
        TensorExpr::Neg(a) => contains_node(a, k),
        TensorExpr::ScalarMul(_, a) => contains_node(a, k),
        TensorExpr::Power { base, .. } => contains_node(base, k),
        TensorExpr::Diff { num, den, .. } => contains_node(num, k) || contains_node(den, k),
        TensorExpr::MatMul(a, b) => contains_node(a, k) || contains_node(b, k),
        TensorExpr::Add(a, b) => contains_node(a, k) || contains_node(b, k),
        TensorExpr::Sub(a, b) => contains_node(a, k) || contains_node(b, k),
        TensorExpr::Outer(a, b) => contains_node(a, k) || contains_node(b, k),
        TensorExpr::BoxTimes(a, b) => contains_node(a, k) || contains_node(b, k),
        TensorExpr::SumIdx { body, .. } => contains_node(body, k),
    }
}

/// A declared property of a tensor variable; `false` for any other
/// expression.
pub open spec fn declared(m: TensorModel, p: spec_fn(TensorProperties) -> bool) -> bool {
    match m {
        TensorModel::Var { props, .. } => p(props),
        _ => false,
    }
}

/// What the scalar expressions inside a tensor hold, as far as the
/// characteristics need it: the ids of those with a derivative node and of
/// those with a set element.
#[derive(Debug, Clone)]
pub struct ScalarFacts {
    pub with_derivative: Vec<ScalarId>,
    pub with_set_element: Vec<ScalarId>,
}

/// The UI summary of a tensor's known characteristics.
pub fn tensor_characteristic(t: &TensorExpr, derived: bool, scalars: &ScalarFacts) -> (c: TensorCharacteristic)
    requires
        sized(t@),
    ensures
        c.order as nat == order_of(t@),
        c.dim as nat == dim_of(t@),
        c.symmetric == symmetric_m(t@),
        c.identity == is_identity_m(t@),
        c.antisymmetric == declared(t@, |p: TensorProperties| p.antisymmetric),
        c.orthogonal == declared(t@, |p: TensorProperties| p.orthogonal),
        c.isotropic == declared(t@, |p: TensorProperties| p.isotropic),
        c.filled == has_node(t@, NodeKind::Filled),
        c.derived == derived,
        c.derivative == has_diff(t@, scalars.with_derivative@),
        c.spectral == has_set_elem(t@, scalars.with_set_element@),
        c.sum == has_node(t@, NodeKind::Sum),
        c.outer_like == has_node(t@, NodeKind::Outer),
        c.boxtimes_like == has_node(t@, NodeKind::BoxTimes),
{
    let (antisymmetric, orthogonal, isotropic) = match t {
        TensorExpr::Var { props, .. } => (props.antisymmetric, props.orthogonal, props.isotropic),
        _ => (false, false, false),
    };
    TensorCharacteristic {
        order: t.order(),
        dim: t.dim(),
        symmetric: t.is_symmetric(),
        identity: t.is_identity(),
        antisymmetric,
        orthogonal,
        isotropic,
        filled: contains_node(t, NodeKind::Filled),
        derived,
        derivative: contains_diff(t, &scalars.with_derivative),
        spectral: contains_set_elem(t, &scalars.with_set_element),
        sum: contains_node(t, NodeKind::Sum),
        outer_like: contains_node(t, NodeKind::Outer),
        boxtimes_like: contains_node(t, NodeKind::BoxTimes),
    }
}

/// The kind of a tensor value.
pub fn tensor_value_kind(t: &TensorExpr) -> (k: ValueKind)
    requires
        sized(t@),
    ensures
        k == (ValueKind::Tensor { order: order_of(t@) as usize, dim: dim_of(t@) as usize }),
{
    ValueKind::Tensor { order: t.order(), dim: t.dim() }
}


/// A display mode is available exactly for: `symbol` on every kind;
/// `components` and `matrix` on tensors of order 1 or 2; `block_components`
/// on tensors of order 4. Every other pairing is refused as invalid for the
/// type, with a message; none is left to a missing renderer.
pub proof fn law_display_availability(kind: ValueKind, mode: Seq<char>)
    ensures
        (capability_spec(kind, mode).state == DisplayCapabilityState::Available) <==> (mode == "symbol"@
            || (kind matches ValueKind::Tensor { order, .. } && (((mode == "components"@ || mode
            == "matrix"@) && (order == 1 || order == 2)) || (mode == "block_components"@ && order
            == 4)))),
        capability_spec(kind, mode).state != DisplayCapabilityState::Available ==> capability_spec(
            kind,
            mode,
        ).state == DisplayCapabilityState::InvalidForType && capability_spec(kind, mode).message is Some,
        capability_spec(kind, mode).mode == mode,
{
    reveal_strlit("symbol");
    reveal_strlit("components");
    reveal_strlit("matrix");
    reveal_strlit("block_components");
}

} // verus!
