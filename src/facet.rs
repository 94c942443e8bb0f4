//! Extraction of the three facets (parameters, parts, drawables) from what the
//! engine reports for a freshly initialised model.
//!
//! The engine answers with a count and, for each array, a pointer that may be
//! null. Whoever reads the engine turns each answer into a plain value: the
//! count as it came, and each array as `None` where the pointer was null or
//! as the elements it holds. The functions here decide, before anything is
//! exposed, whether those arrays make a well-formed model; any fault fails the
//! whole domain.
use vstd::prelude::*;

use crate::error::Error;
use crate::flags::{ConstantFlags, DynamicFlags};
use crate::ieee;
use crate::model::{PartParent, Vector2};

verus! {

/// One array as the engine reported it: `None` where its pointer was null or
/// its nominal length cannot be addressed.
pub type RawArray<T> = Option<Vec<T>>;

/// `true` when the array is there and holds exactly `n` elements.
pub open spec fn present<T>(raw: Option<Vec<T>>, n: int) -> bool {
    raw matches Some(v) && v@.len() == n
}

/// Every element array is there, with the non-negative length that `counts` gives.
pub open spec fn nested_present<T>(counts: Seq<i32>, raw: Seq<Option<Vec<T>>>) -> bool {
    &&& raw.len() == counts.len()
    &&& forall|i: int|
        0 <= i < counts.len() ==> #[trigger] counts[i] >= 0 && present(raw[i], counts[i] as int)
}

/// Each row of a two-level array as a sequence.
pub open spec fn views_of<T>(rows: Seq<Vec<T>>) -> Seq<Seq<T>> {
    rows.map_values(|e: Vec<T>| e@)
}

/// The element arrays, unwrapped.
pub open spec fn unwrap_nested<T>(raw: Seq<Option<Vec<T>>>) -> Seq<Seq<T>> {
    raw.map_values(|o: Option<Vec<T>>| o.unwrap()@)
}

/// Converts a count reported by the engine; a negative count is invalid.
pub fn convert_i32(i: i32) -> (r: Option<usize>)
    ensures
        r == (if i >= 0 {
            Some(i as usize)
        } else {
            None::<usize>
        }),
{
    if i >= 0 {
        Some(i as usize)
    } else {
        None
    }
}

/// The number of elements that may be read for a reported count, given the
/// size in bytes of one element: `None` where the count is negative or the
/// array would not fit in the address space.
pub fn slice_len(count: i32, elem_size: usize) -> (r: Option<usize>)
    ensures
        r == (if count >= 0 && count as int * elem_size as int <= isize::MAX as int {
            Some(count as usize)
        } else {
            None::<usize>
        }),
{
    match convert_i32(count) {
        None => None,
        Some(len) => {
            if elem_size == 0 || len <= (isize::MAX as usize) / elem_size {
                proof {
                    if elem_size > 0 {
                        let m = isize::MAX as usize as int;
                        let q = m / elem_size as int;
                        assert(len as int * elem_size as int <= q * elem_size as int)
                            by (nonlinear_arith)
                            requires len as int <= q, elem_size > 0;
                        assert(q * elem_size as int <= m) by (nonlinear_arith)
                            requires q == m / elem_size as int, elem_size > 0, m >= 0;
                    }
                }
                Some(len)
            } else {
                proof {
                    let m = isize::MAX as usize as int;
                    let q = m / elem_size as int;
                    assert(len as int * elem_size as int > m) by (nonlinear_arith)
                        requires len as int >= q + 1, elem_size > 0, q == m / elem_size as int, m >= 0;
                }
                None
            }
        },
    }
}

/// Keeps an array only if it is there with exactly `len` elements.
pub fn get_slice<T>(raw: Option<Vec<T>>, len: usize) -> (r: Option<Vec<T>>)
    ensures
        r == (if present(raw, len as int) {
            raw
        } else {
            None::<Vec<T>>
        }),
{
    match raw {
        Some(v) => {
            if v.len() == len {
                Some(v)
            } else {
                None
            }
        },
        None => None,
    }
}

/// Unwraps the element arrays of a two-level array, each of which must be
/// there with the length that `counts` gives.
pub fn get_nested<T>(counts: &Vec<i32>, raw: Vec<Option<Vec<T>>>) -> (r: Option<Vec<Vec<T>>>)
    ensures
        r is Some <==> nested_present(counts@, raw@),
        r matches Some(v) ==> v@.len() == raw@.len() && views_of(v@) == unwrap_nested(raw@),
{
    let ghost raw0 = raw@;
    if raw.len() != counts.len() {
        return None;
    }
    let mut rest = raw;
    let mut out: Vec<Vec<T>> = Vec::new();
    let mut i: usize = 0;
    while i < rest.len()
        invariant
            raw0.len() == counts@.len(),
            raw0 == raw@,
            rest@.len() == raw0.len(),
            0 <= i <= rest@.len(),
            forall|j: int| i <= j < rest@.len() ==> rest@[j] == raw0[j],
            out@.len() == i,
            forall|j: int| 0 <= j < i ==> #[trigger] counts@[j] >= 0 && present(raw0[j], counts@[j] as int),
            forall|j: int| 0 <= j < i ==> (#[trigger] out@[j])@ == raw0[j].unwrap()@,
        decreases rest@.len() - i,
    {
        let mut slot: Option<Vec<T>> = None;
        std::mem::swap(&mut rest[i], &mut slot);
        assert(slot == raw0[i as int]);
        match convert_i32(counts[i]) {
            None => {
                assert(counts@[i as int] < 0);
                return None;
            },
            Some(n) => match get_slice(slot, n) {
                None => {
                    assert(!present(raw0[i as int], counts@[i as int] as int));
                    return None;
                },
                Some(v) => {
                    out.push(v);
                },
            },
        }
        i += 1;
    }
    proof {
        assert(views_of(out@) =~= unwrap_nested(raw0));
    }
    Some(out)
}

/// Every identifier pointer of the array was there and decoded as text.
pub open spec fn ids_present(raw: Option<Vec<Option<String>>>, n: int) -> bool {
    present(raw, n) && forall|i: int| 0 <= i < n ==> (#[trigger] raw.unwrap()@[i]) is Some
}

/// The identifiers, unwrapped.
pub open spec fn ids_of(raw: Option<Vec<Option<String>>>) -> Seq<Seq<char>> {
    raw.unwrap()@.map_values(|o: Option<String>| o.unwrap()@)
}

/// The text of each identifier.
pub open spec fn id_views(ids: Seq<String>) -> Seq<Seq<char>> {
    ids.map_values(|s: String| s@)
}

/// Takes the identifiers, which must all be there, `len` of them.
pub fn get_ids(raw: Option<Vec<Option<String>>>, len: usize) -> (r: Option<Vec<String>>)
    ensures
        r is Some <==> ids_present(raw, len as int),
        r matches Some(v) ==> v@.len() == len && id_views(v@) == ids_of(raw),
{
    let ghost raw0 = raw;
    let mut rest = match get_slice(raw, len) {
        Some(v) => v,
        None => {
            return None;
        },
    };
    let mut out: Vec<String> = Vec::new();
    let mut i: usize = 0;
    while i < rest.len()
        invariant
            raw0 == raw,
            present(raw0, len as int),
            rest@.len() == len,
            0 <= i <= len,
            forall|j: int| i <= j < len ==> rest@[j] == raw0.unwrap()@[j],
            out@.len() == i,
            forall|j: int| 0 <= j < i ==> (#[trigger] raw0.unwrap()@[j]) is Some,
            forall|j: int| 0 <= j < i ==> (#[trigger] out@[j])@ == raw0.unwrap()@[j].unwrap()@,
        decreases len - i,
    {
        let mut slot: Option<String> = None;
        std::mem::swap(&mut rest[i], &mut slot);
        match slot {
            Some(s) => {
                out.push(s);
            },
            None => {
                return None;
            },
        }
        i += 1;
    }
    proof {
        assert(id_views(out@) =~= ids_of(raw0));
    }
    Some(out)
}

/// `lo[i] <= v[i]` at every index.
pub open spec fn all_at_least(v: Seq<u32>, lo: Seq<u32>) -> bool {
    forall|i: int| 0 <= i < v.len() ==> ieee::spec_le(#[trigger] lo[i], v[i])
}

/// `lo[i] <= v[i] <= hi[i]` at every index.
pub open spec fn all_within(v: Seq<u32>, lo: Seq<u32>, hi: Seq<u32>) -> bool {
    forall|i: int|
        0 <= i < v.len() ==> ieee::spec_le(lo[i], #[trigger] v[i]) && ieee::spec_le(v[i], hi[i])
}

/// Every element of the `i`-th row lies within `[lo[i], hi[i]]`.
pub open spec fn rows_within(rows: Seq<Seq<u32>>, lo: Seq<u32>, hi: Seq<u32>) -> bool {
    forall|i: int, k: int|
        0 <= i < rows.len() && 0 <= k < rows[i].len() ==> ieee::spec_le(lo[i], #[trigger] rows[i][k])
            && ieee::spec_le(rows[i][k], hi[i])
}

fn check_at_least(v: &Vec<u32>, lo: &Vec<u32>) -> (r: bool)
    requires
        v@.len() == lo@.len(),
    ensures
        r == all_at_least(v@, lo@),
{
    let mut i: usize = 0;
    while i < v.len()
        invariant
            v@.len() == lo@.len(),
            0 <= i <= v@.len(),
            forall|j: int| 0 <= j < i ==> ieee::spec_le(#[trigger] lo@[j], v@[j]),
        decreases v@.len() - i,
    {
        if !ieee::le(lo[i], v[i]) {
            return false;
        }
        i += 1;
    }
    true
}

fn check_within(v: &Vec<u32>, lo: &Vec<u32>, hi: &Vec<u32>) -> (r: bool)
    requires
        v@.len() == lo@.len(),
        v@.len() == hi@.len(),
    ensures
        r == all_within(v@, lo@, hi@),
{
    let mut i: usize = 0;
    while i < v.len()
        invariant
            v@.len() == lo@.len(),
            v@.len() == hi@.len(),
            0 <= i <= v@.len(),
            forall|j: int|
                0 <= j < i ==> ieee::spec_le(lo@[j], #[trigger] v@[j]) && ieee::spec_le(v@[j], hi@[j]),
        decreases v@.len() - i,
    {
        if !(ieee::le(lo[i], v[i]) && ieee::le(v[i], hi[i])) {
            return false;
        }
        i += 1;
    }
    true
}

fn check_row(row: &Vec<u32>, lo: u32, hi: u32) -> (r: bool)
    ensures
        r == forall|k: int|
            0 <= k < row@.len() ==> ieee::spec_le(lo, #[trigger] row@[k]) && ieee::spec_le(
                row@[k],
                hi,
            ),
{
    let mut k: usize = 0;
    while k < row.len()
        invariant
            0 <= k <= row@.len(),
            forall|c: int|
                0 <= c < k ==> ieee::spec_le(lo, #[trigger] row@[c]) && ieee::spec_le(row@[c], hi),
        decreases row@.len() - k,
    {
        if !(ieee::le(lo, row[k]) && ieee::le(row[k], hi)) {
            return false;
        }
        k += 1;
    }
    true
}

fn check_rows_within(rows: &Vec<Vec<u32>>, lo: &Vec<u32>, hi: &Vec<u32>) -> (r: bool)
    requires
        rows@.len() == lo@.len(),
        rows@.len() == hi@.len(),
    ensures
        r == rows_within(views_of(rows@), lo@, hi@),
{
    let ghost rv = views_of(rows@);
    let mut i: usize = 0;
    while i < rows.len()
        invariant
            rows@.len() == lo@.len(),
            rows@.len() == hi@.len(),
            rv == views_of(rows@),
            0 <= i <= rows@.len(),
            forall|a: int, k: int|
                0 <= a < i && 0 <= k < rv[a].len() ==> ieee::spec_le(lo@[a], #[trigger] rv[a][k])
                    && ieee::spec_le(rv[a][k], hi@[a]),
        decreases rows@.len() - i,
    {
        let ok = check_row(&rows[i], lo[i], hi[i]);
        assert(rv[i as int] == rows@[i as int]@);
        if !ok {
            let ghost row = rv[i as int];
            let ghost k = choose|k: int|
                0 <= k < row.len() && !(ieee::spec_le(lo@[i as int], #[trigger] row[k])
                    && ieee::spec_le(row[k], hi@[i as int]));
            assert(!(ieee::spec_le(lo@[i as int], rv[i as int][k]) && ieee::spec_le(
                rv[i as int][k],
                hi@[i as int],
            )));
            return false;
        }
        i += 1;
    }
    true
}

/// What the engine reported for the parameters of a model.
///
/// Each scalar is the bit pattern of a single-precision number. The two
/// tolerance arrays hold, for each parameter, `min - 0.0001` and
/// `max + 0.0001` as computed in single precision by whoever reads the
/// engine; the checks below compare against them exactly.
pub struct RawParameters {
    /// The parameter count.
    pub count: i32,
    /// The identifiers; `None` for a null or undecodable one.
    pub ids: RawArray<Option<String>>,
    /// The minimal values.
    pub min_values: RawArray<u32>,
    /// The maximal values.
    pub max_values: RawArray<u32>,
    /// The default values.
    pub default_values: RawArray<u32>,
    /// The current values.
    pub values: RawArray<u32>,
    /// The number of key values of each parameter.
    pub key_counts: RawArray<i32>,
    /// The key values of each parameter.
    pub key_values: RawArray<RawArray<u32>>,
    /// `min_values[i] - 0.0001`, for each parameter.
    pub lower_bounds: RawArray<u32>,
    /// `max_values[i] + 0.0001`, for each parameter.
    pub upper_bounds: RawArray<u32>,
}

/// The validated parameters of a model.
pub struct Parameters {
    /// The identifiers.
    pub ids: Vec<String>,
    /// The minimal values.
    pub min_values: Vec<u32>,
    /// The maximal values.
    pub max_values: Vec<u32>,
    /// The default values.
    pub default_values: Vec<u32>,
    /// The current values.
    pub values: Vec<u32>,
    /// The key values of each parameter.
    pub key_values: Vec<Vec<u32>>,
    /// The minimal values widened by the tolerance.
    pub lower_bounds: Vec<u32>,
    /// The maximal values widened by the tolerance.
    pub upper_bounds: Vec<u32>,
}


/// The first fault in what the engine reported for the parameters, if any,
/// in the order in which the arrays are examined.
pub open spec fn parameters_fault(raw: RawParameters) -> Option<Error> {
    let n = raw.count as int;
    if raw.count < 0 {
        Some(Error::InvalidCount("parameter"))
    } else if !ids_present(raw.ids, n) {
        Some(Error::GetDataError("parameter ids"))
    } else if !present(raw.min_values, n) || !present(raw.lower_bounds, n) {
        Some(Error::GetDataError("parameter min values"))
    } else if !present(raw.max_values, n) || !present(raw.upper_bounds, n) || !all_at_least(
        raw.max_values.unwrap()@,
        raw.lower_bounds.unwrap()@,
    ) {
        Some(Error::GetDataError("parameter max values"))
    } else if !present(raw.default_values, n) || !all_within(
        raw.default_values.unwrap()@,
        raw.lower_bounds.unwrap()@,
        raw.upper_bounds.unwrap()@,
    ) {
        Some(Error::GetDataError("parameter default values"))
    } else if !present(raw.values, n) {
        Some(Error::GetDataError("parameter values"))
    } else if !present(raw.key_counts, n) {
        Some(Error::GetDataError("parameter key counts"))
    } else if !present(raw.key_values, n) || !nested_present(
        raw.key_counts.unwrap()@,
        raw.key_values.unwrap()@,
    ) || !rows_within(
        unwrap_nested(raw.key_values.unwrap()@),
        raw.lower_bounds.unwrap()@,
        raw.upper_bounds.unwrap()@,
    ) {
        Some(Error::GetDataError("parameter key values"))
    } else {
        None
    }
}

impl Parameters {
    /// The number of parameters.
    pub open spec fn len(&self) -> nat {
        self.ids@.len()
    }

    /// Every array is as long as the identifiers, and the static values keep
    /// to their ranges.
    pub open spec fn wf(&self) -> bool {
        let n = self.len();
        &&& self.min_values@.len() == n
        &&& self.max_values@.len() == n
        &&& self.default_values@.len() == n
        &&& self.values@.len() == n
        &&& self.key_values@.len() == n
        &&& self.lower_bounds@.len() == n
        &&& self.upper_bounds@.len() == n
        &&& all_at_least(self.max_values@, self.lower_bounds@)
        &&& all_within(self.default_values@, self.lower_bounds@, self.upper_bounds@)
        &&& rows_within(views_of(self.key_values@), self.lower_bounds@, self.upper_bounds@)
    }

    /// The parameters hold exactly what the engine reported.
    pub open spec fn built_from(&self, raw: RawParameters) -> bool {
        &&& id_views(self.ids@) == ids_of(raw.ids)
        &&& self.min_values@ == raw.min_values.unwrap()@
        &&& self.max_values@ == raw.max_values.unwrap()@
        &&& self.default_values@ == raw.default_values.unwrap()@
        &&& self.values@ == raw.values.unwrap()@
        &&& views_of(self.key_values@) == unwrap_nested(raw.key_values.unwrap()@)
        &&& self.lower_bounds@ == raw.lower_bounds.unwrap()@
        &&& self.upper_bounds@ == raw.upper_bounds.unwrap()@
    }

    /// Validates what the engine reported for the parameters.
    pub fn new(raw: RawParameters) -> (r: Result<Parameters, Error>)
        ensures
            r is Ok <==> parameters_fault(raw) is None,
            r matches Err(e) ==> parameters_fault(raw) == Some(e),
            r matches Ok(p) ==> p.wf() && p.built_from(raw) && p.len() == raw.count,
    {
        let RawParameters {
            count,
            ids,
            min_values,
            max_values,
            default_values,
            values,
            key_counts,
            key_values,
            lower_bounds,
            upper_bounds,
        } = raw;
        let n = match convert_i32(count) {
            Some(n) => n,
            None => {
                return Err(Error::InvalidCount("parameter"));
            },
        };
        let ids = match get_ids(ids, n) {
            Some(v) => v,
            None => {
                return Err(Error::GetDataError("parameter ids"));
            },
        };
        let (min_values, lower_bounds) = match (get_slice(min_values, n), get_slice(lower_bounds, n)) {
            (Some(a), Some(b)) => (a, b),
            _ => {
                return Err(Error::GetDataError("parameter min values"));
            },
        };
        let (max_values, upper_bounds) = match (get_slice(max_values, n), get_slice(upper_bounds, n)) {
            (Some(a), Some(b)) => (a, b),
            _ => {
                return Err(Error::GetDataError("parameter max values"));
            },
        };
        if !check_at_least(&max_values, &lower_bounds) {
            return Err(Error::GetDataError("parameter max values"));
        }
        let default_values = match get_slice(default_values, n) {
            Some(v) => v,
            None => {
                return Err(Error::GetDataError("parameter default values"));
            },
        };
        if !check_within(&default_values, &lower_bounds, &upper_bounds) {
            return Err(Error::GetDataError("parameter default values"));
        }
        let values = match get_slice(values, n) {
            Some(v) => v,
            None => {
                return Err(Error::GetDataError("parameter values"));
            },
        };
        let key_counts = match get_slice(key_counts, n) {
            Some(v) => v,
            None => {
                return Err(Error::GetDataError("parameter key counts"));
            },
        };
        let key_values = match get_slice(key_values, n) {
            Some(v) => v,
            None => {
                return Err(Error::GetDataError("parameter key values"));
            },
        };
        let key_values = match get_nested(&key_counts, key_values) {
            Some(v) => v,
            None => {
                return Err(Error::GetDataError("parameter key values"));
            },
        };
        if !check_rows_within(&key_values, &lower_bounds, &upper_bounds) {
            return Err(Error::GetDataError("parameter key values"));
        }
        Ok(Parameters {
            ids,
            min_values,
            max_values,
            default_values,
            values,
            key_values,
            lower_bounds,
            upper_bounds,
        })
    }
}

/// What the engine reported for the parts of a model.
pub struct RawParts {
    /// The part count.
    pub count: i32,
    /// The identifiers; `None` for a null or undecodable one.
    pub ids: RawArray<Option<String>>,
    /// The opacities, as single-precision bit patterns.
    pub opacities: RawArray<u32>,
    /// The parent of each part.
    pub parent_indices: RawArray<PartParent>,
}

/// The validated parts of a model.
pub struct Parts {
    /// The identifiers.
    pub ids: Vec<String>,
    /// The opacities, as single-precision bit patterns.
    pub opacities: Vec<u32>,
    /// The parent of each part.
    pub parent_indices: Vec<PartParent>,
}

/// A parent is the root or the index of one of the `n` parts.
pub open spec fn parent_ok(p: PartParent, n: int) -> bool {
    p.spec_is_valid() && p.0 < n
}

/// Every parent is the root or the index of one of the `n` parts.
pub open spec fn parents_ok(v: Seq<PartParent>, n: int) -> bool {
    forall|i: int| 0 <= i < v.len() ==> parent_ok(#[trigger] v[i], n)
}

/// The first fault in what the engine reported for the parts, if any.
pub open spec fn parts_fault(raw: RawParts) -> Option<Error> {
    let n = raw.count as int;
    if raw.count < 0 {
        Some(Error::InvalidCount("part"))
    } else if !ids_present(raw.ids, n) {
        Some(Error::GetDataError("part ids"))
    } else if !present(raw.opacities, n) {
        Some(Error::GetDataError("part opacities"))
    } else if !present(raw.parent_indices, n) || !parents_ok(raw.parent_indices.unwrap()@, n) {
        Some(Error::GetDataError("part parent indices"))
    } else {
        None
    }
}

fn check_parents(v: &Vec<PartParent>, n: usize) -> (r: bool)
    requires
        n <= i32::MAX,
    ensures
        r == parents_ok(v@, n as int),
{
    let mut i: usize = 0;
    while i < v.len()
        invariant
            n <= i32::MAX,
            0 <= i <= v@.len(),
            forall|j: int| 0 <= j < i ==> parent_ok(#[trigger] v@[j], n as int),
        decreases v@.len() - i,
    {
        let p = v[i];
        if !(p.is_valid() && (p.0 as i64) < (n as i64)) {
            return false;
        }
        i += 1;
    }
    true
}

impl Parts {
    /// The number of parts.
    pub open spec fn len(&self) -> nat {
        self.ids@.len()
    }

    /// Every array is as long as the identifiers, and every parent is a part.
    pub open spec fn wf(&self) -> bool {
        &&& self.opacities@.len() == self.len()
        &&& self.parent_indices@.len() == self.len()
        &&& parents_ok(self.parent_indices@, self.len() as int)
    }

    /// The parts hold exactly what the engine reported.
    pub open spec fn built_from(&self, raw: RawParts) -> bool {
        &&& id_views(self.ids@) == ids_of(raw.ids)
        &&& self.opacities@ == raw.opacities.unwrap()@
        &&& self.parent_indices@ == raw.parent_indices.unwrap()@
    }

    /// Validates what the engine reported for the parts.
    pub fn new(raw: RawParts) -> (r: Result<Parts, Error>)
        ensures
            r is Ok <==> parts_fault(raw) is None,
            r matches Err(e) ==> parts_fault(raw) == Some(e),
            r matches Ok(p) ==> p.wf() && p.built_from(raw) && p.len() == raw.count,
    {
        let RawParts { count, ids, opacities, parent_indices } = raw;
        let n = match convert_i32(count) {
            Some(n) => n,
            None => {
                return Err(Error::InvalidCount("part"));
            },
        };
        let ids = match get_ids(ids, n) {
            Some(v) => v,
            None => {
                return Err(Error::GetDataError("part ids"));
            },
        };
        let opacities = match get_slice(opacities, n) {
            Some(v) => v,
            None => {
                return Err(Error::GetDataError("part opacities"));
            },
        };
        let parent_indices = match get_slice(parent_indices, n) {
            Some(v) => v,
            None => {
                return Err(Error::GetDataError("part parent indices"));
            },
        };
        if !check_parents(&parent_indices, n) {
            return Err(Error::GetDataError("part parent indices"));
        }
        Ok(Parts { ids, opacities, parent_indices })
    }
}

/// The largest value of a signed 32-bit integer.
pub const I32_MAX: u32 = 0x7FFF_FFFF;

/// Every constant flag byte sets only defined bits.
pub open spec fn constant_flags_ok(v: Seq<ConstantFlags>) -> bool {
    forall|i: int| 0 <= i < v.len() ==> (#[trigger] v[i]).spec_is_valid()
}

/// Every dynamic flag byte sets only defined bits.
pub open spec fn dynamic_flags_ok(v: Seq<DynamicFlags>) -> bool {
    forall|i: int| 0 <= i < v.len() ==> (#[trigger] v[i]).spec_is_valid()
}

/// Every value fits in a signed 32-bit integer.
pub open spec fn fits_i32(v: Seq<u32>) -> bool {
    forall|i: int| 0 <= i < v.len() ==> #[trigger] v[i] <= I32_MAX
}

/// Every row's values fit in a signed 32-bit integer.
pub open spec fn rows_fit_i32(rows: Seq<Seq<u32>>) -> bool {
    forall|i: int| 0 <= i < rows.len() ==> fits_i32(#[trigger] rows[i])
}

/// Every opacity lies within `[0 - 0.0001, 1 + 0.0001]`.
pub open spec fn opacities_ok(v: Seq<u32>) -> bool {
    forall|i: int| 0 <= i < v.len() ==> ieee::opacity_ok(#[trigger] v[i])
}

/// A triangle index count is non-negative and a multiple of three.
pub open spec fn index_count_ok(c: i32) -> bool {
    c >= 0 && c % 3 == 0
}

/// The first fault among the triangle index arrays from position `i` on.
pub open spec fn indices_fault_from(counts: Seq<i32>, raw: Seq<Option<Vec<u16>>>, i: int) -> Option<
    Error,
>
    decreases counts.len() - i,
{
    if i < 0 || i >= counts.len() {
        None
    } else if !index_count_ok(counts[i]) {
        Some(Error::InvalidCount("drawable indices"))
    } else if !present(raw[i], counts[i] as int) {
        Some(Error::GetDataError("drawable indices"))
    } else {
        indices_fault_from(counts, raw, i + 1)
    }
}

/// Checks each flag byte.
pub fn check_constant_flags(v: &Vec<ConstantFlags>) -> (r: bool)
    ensures
        r == constant_flags_ok(v@),
{
    let mut i: usize = 0;
    while i < v.len()
        invariant
            0 <= i <= v@.len(),
            forall|j: int| 0 <= j < i ==> (#[trigger] v@[j]).spec_is_valid(),
        decreases v@.len() - i,
    {
        if !v[i].is_valid() {
            return false;
        }
        i += 1;
    }
    true
}

/// Checks each flag byte.
pub fn check_dynamic_flags(v: &Vec<DynamicFlags>) -> (r: bool)
    ensures
        r == dynamic_flags_ok(v@),
{
    let mut i: usize = 0;
    while i < v.len()
        invariant
            0 <= i <= v@.len(),
            forall|j: int| 0 <= j < i ==> (#[trigger] v@[j]).spec_is_valid(),
        decreases v@.len() - i,
    {
        if !v[i].is_valid() {
            return false;
        }
        i += 1;
    }
    true
}

/// Checks that each value fits in a signed 32-bit integer.
fn check_fits_i32(v: &Vec<u32>) -> (r: bool)
    ensures
        r == fits_i32(v@),
{
    let mut i: usize = 0;
    while i < v.len()
        invariant
            0 <= i <= v@.len(),
            forall|j: int| 0 <= j < i ==> #[trigger] v@[j] <= I32_MAX,
        decreases v@.len() - i,
    {
        if v[i] > I32_MAX {
            return false;
        }
        i += 1;
    }
    true
}

fn check_rows_fit_i32(rows: &Vec<Vec<u32>>) -> (r: bool)
    ensures
        r == rows_fit_i32(views_of(rows@)),
{
    let mut i: usize = 0;
    while i < rows.len()
        invariant
            0 <= i <= rows@.len(),
            forall|j: int| 0 <= j < i ==> fits_i32(#[trigger] views_of(rows@)[j]),
        decreases rows@.len() - i,
    {
        let ok = check_fits_i32(&rows[i]);
        assert(views_of(rows@)[i as int] == rows@[i as int]@);
        if !ok {
            return false;
        }
        i += 1;
    }
    true
}

/// Checks each opacity.
pub fn check_opacities(v: &Vec<u32>) -> (r: bool)
    ensures
        r == opacities_ok(v@),
{
    let mut i: usize = 0;
    while i < v.len()
        invariant
            0 <= i <= v@.len(),
            forall|j: int| 0 <= j < i ==> ieee::opacity_ok(#[trigger] v@[j]),
        decreases v@.len() - i,
    {
        if !ieee::check_opacity(v[i]) {
            return false;
        }
        i += 1;
    }
    true
}

proof fn lemma_indices_fault_none(counts: Seq<i32>, raw: Seq<Option<Vec<u16>>>, i: int)
    requires
        0 <= i <= counts.len(),
        raw.len() == counts.len(),
        indices_fault_from(counts, raw, i) is None,
    ensures
        forall|j: int|
            i <= j < counts.len() ==> index_count_ok(#[trigger] counts[j]) && present(
                raw[j],
                counts[j] as int,
            ),
    decreases counts.len() - i,
{
    if i < counts.len() {
        lemma_indices_fault_none(counts, raw, i + 1);
    }
}

/// Takes the triangle index arrays: each count must be a multiple of three and
/// each array there with that many elements.
fn get_indices(counts: &Vec<i32>, raw: Vec<Option<Vec<u16>>>) -> (r: Result<Vec<Vec<u16>>, Error>)
    requires
        raw@.len() == counts@.len(),
    ensures
        r is Ok <==> indices_fault_from(counts@, raw@, 0) is None,
        r matches Err(e) ==> indices_fault_from(counts@, raw@, 0) == Some(e),
        r matches Ok(v) ==> v@.len() == raw@.len() && views_of(v@) == unwrap_nested(raw@)
            && nested_present(counts@, raw@) && forall|j: int|
            0 <= j < counts@.len() ==> index_count_ok(#[trigger] counts@[j]),
{
    let ghost raw0 = raw@;
    let mut rest = raw;
    let mut out: Vec<Vec<u16>> = Vec::new();
    let mut i: usize = 0;
    while i < rest.len()
        invariant
            raw0 == raw@,
            raw0.len() == counts@.len(),
            rest@.len() == raw0.len(),
            0 <= i <= rest@.len(),
            forall|j: int| i <= j < rest@.len() ==> rest@[j] == raw0[j],
            out@.len() == i,
            indices_fault_from(counts@, raw0, 0) == indices_fault_from(counts@, raw0, i as int),
            forall|j: int|
                0 <= j < i ==> #[trigger] counts@[j] >= 0 && present(raw0[j], counts@[j] as int),
            forall|j: int| 0 <= j < i ==> (#[trigger] out@[j])@ == raw0[j].unwrap()@,
        decreases rest@.len() - i,
    {
        let mut slot: Option<Vec<u16>> = None;
        std::mem::swap(&mut rest[i], &mut slot);
        let c = counts[i];
        if c < 0 || c % 3 != 0 {
            return Err(Error::InvalidCount("drawable indices"));
        }
        match get_slice(slot, c as usize) {
            None => {
                return Err(Error::GetDataError("drawable indices"));
            },
            Some(v) => {
                out.push(v);
            },
        }
        i += 1;
    }
    proof {
        assert(views_of(out@) =~= unwrap_nested(raw0));
        lemma_indices_fault_none(counts@, raw0, 0);
    }
    Ok(out)
}

/// What the engine reported for the drawables of a model.
pub struct RawDrawables {
    /// The drawable count.
    pub count: i32,
    /// The identifiers; `None` for a null or undecodable one.
    pub ids: RawArray<Option<String>>,
    /// The constant flags.
    pub constant_flags: RawArray<ConstantFlags>,
    /// The dynamic flags.
    pub dynamic_flags: RawArray<DynamicFlags>,
    /// The texture indices.
    pub texture_indices: RawArray<u32>,
    /// The draw orders.
    pub draw_orders: RawArray<i32>,
    /// The render orders.
    pub render_orders: RawArray<i32>,
    /// The opacities, as single-precision bit patterns.
    pub opacities: RawArray<u32>,
    /// The number of masks of each drawable.
    pub mask_counts: RawArray<i32>,
    /// The masks of each drawable.
    pub masks: RawArray<RawArray<u32>>,
    /// The number of vertices of each drawable.
    pub vertex_counts: RawArray<i32>,
    /// The vertex positions of each drawable.
    pub vertex_positions: RawArray<RawArray<Vector2>>,
    /// The vertex texture coordinates of each drawable.
    pub vertex_uvs: RawArray<RawArray<Vector2>>,
    /// The number of triangle indices of each drawable.
    pub index_counts: RawArray<i32>,
    /// The triangle indices of each drawable.
    pub indices: RawArray<RawArray<u16>>,
}

/// The validated drawables of a model.
pub struct Drawables {
    /// The identifiers.
    pub ids: Vec<String>,
    /// The constant flags.
    pub constant_flags: Vec<ConstantFlags>,
    /// The dynamic flags, as last reported.
    pub dynamic_flags: Vec<DynamicFlags>,
    /// The texture indices.
    pub texture_indices: Vec<u32>,
    /// The draw orders, as last reported.
    pub draw_orders: Vec<i32>,
    /// The render orders, as last reported.
    pub render_orders: Vec<i32>,
    /// The opacities, as last reported.
    pub opacities: Vec<u32>,
    /// The masks of each drawable.
    pub masks: Vec<Vec<u32>>,
    /// The vertex positions of each drawable, as last reported.
    pub vertex_positions: Vec<Vec<Vector2>>,
    /// The vertex texture coordinates of each drawable.
    pub vertex_uvs: Vec<Vec<Vector2>>,
    /// The triangle indices of each drawable.
    pub indices: Vec<Vec<u16>>,
}

/// The first fault in what the engine reported for the drawables, if any,
/// in the order in which the arrays are examined.
pub open spec fn drawables_fault(raw: RawDrawables) -> Option<Error> {
    let n = raw.count as int;
    if raw.count < 0 {
        Some(Error::InvalidCount("drawable"))
    } else if !ids_present(raw.ids, n) {
        Some(Error::GetDataError("drawable ids"))
    } else if !present(raw.constant_flags, n) || !constant_flags_ok(raw.constant_flags.unwrap()@) {
        Some(Error::GetDataError("drawable constant flags"))
    } else if !present(raw.dynamic_flags, n) || !dynamic_flags_ok(raw.dynamic_flags.unwrap()@) {
        Some(Error::GetDataError("drawable dynamic flags"))
    } else if !present(raw.texture_indices, n) || !fits_i32(raw.texture_indices.unwrap()@) {
        Some(Error::GetDataError("drawable texture indices"))
    } else if !present(raw.draw_orders, n) {
        Some(Error::GetDataError("drawable draw orders"))
    } else if !present(raw.render_orders, n) {
        Some(Error::GetDataError("drawable render orders"))
    } else if !present(raw.opacities, n) || !opacities_ok(raw.opacities.unwrap()@) {
        Some(Error::GetDataError("drawable opacities"))
    } else if !present(raw.mask_counts, n) {
        Some(Error::GetDataError("drawable mask counts"))
    } else if !present(raw.masks, n) || !nested_present(
        raw.mask_counts.unwrap()@,
        raw.masks.unwrap()@,
    ) || !rows_fit_i32(unwrap_nested(raw.masks.unwrap()@)) {
        Some(Error::GetDataError("drawable masks"))
    } else if !present(raw.vertex_counts, n) {
        Some(Error::GetDataError("drawable vertex counts"))
    } else if !present(raw.vertex_positions, n) || !nested_present(
        raw.vertex_counts.unwrap()@,
        raw.vertex_positions.unwrap()@,
    ) {
        Some(Error::GetDataError("drawable vertex positions"))
    } else if !present(raw.vertex_uvs, n) || !nested_present(
        raw.vertex_counts.unwrap()@,
        raw.vertex_uvs.unwrap()@,
    ) {
        Some(Error::GetDataError("drawable vertex uvs"))
    } else if !present(raw.index_counts, n) {
        Some(Error::GetDataError("drawable index counts"))
    } else if !present(raw.indices, n) {
        Some(Error::GetDataError("drawable indices"))
    } else {
        indices_fault_from(raw.index_counts.unwrap()@, raw.indices.unwrap()@, 0)
    }
}

impl Drawables {
    /// The number of drawables.
    pub open spec fn len(&self) -> nat {
        self.ids@.len()
    }

    /// Every array is as long as the identifiers, and the static data keeps
    /// to its invariants.
    pub open spec fn wf(&self) -> bool {
        let n = self.len();
        &&& self.constant_flags@.len() == n
        &&& self.dynamic_flags@.len() == n
        &&& self.texture_indices@.len() == n
        &&& self.draw_orders@.len() == n
        &&& self.render_orders@.len() == n
        &&& self.opacities@.len() == n
        &&& self.masks@.len() == n
        &&& self.vertex_positions@.len() == n
        &&& self.vertex_uvs@.len() == n
        &&& self.indices@.len() == n
        &&& constant_flags_ok(self.constant_flags@)
        &&& fits_i32(self.texture_indices@)
        &&& rows_fit_i32(views_of(self.masks@))
        &&& forall|i: int|
            0 <= i < n ==> (#[trigger] self.vertex_positions@[i])@.len()
                == self.vertex_uvs@[i]@.len()
        &&& forall|i: int| 0 <= i < n ==> (#[trigger] self.indices@[i])@.len() % 3 == 0
    }

    /// The drawables hold exactly what the engine reported.
    pub open spec fn built_from(&self, raw: RawDrawables) -> bool {
        &&& id_views(self.ids@) == ids_of(raw.ids)
        &&& self.constant_flags@ == raw.constant_flags.unwrap()@
        &&& self.dynamic_flags@ == raw.dynamic_flags.unwrap()@
        &&& self.texture_indices@ == raw.texture_indices.unwrap()@
        &&& self.draw_orders@ == raw.draw_orders.unwrap()@
        &&& self.render_orders@ == raw.render_orders.unwrap()@
        &&& self.opacities@ == raw.opacities.unwrap()@
        &&& views_of(self.masks@) == unwrap_nested(raw.masks.unwrap()@)
        &&& views_of(self.vertex_positions@) == unwrap_nested(raw.vertex_positions.unwrap()@)
        &&& views_of(self.vertex_uvs@) == unwrap_nested(raw.vertex_uvs.unwrap()@)
        &&& views_of(self.indices@) == unwrap_nested(raw.indices.unwrap()@)
    }

    /// Validates what the engine reported for the drawables.
    pub fn new(raw: RawDrawables) -> (r: Result<Drawables, Error>)
        ensures
            r is Ok <==> drawables_fault(raw) is None,
            r matches Err(e) ==> drawables_fault(raw) == Some(e),
            r matches Ok(d) ==> d.wf() && d.built_from(raw) && d.len() == raw.count,
    {
        let RawDrawables {
            count,
            ids,
            constant_flags,
            dynamic_flags,
            texture_indices,
            draw_orders,
            render_orders,
            opacities,
            mask_counts,
            masks,
            vertex_counts,
            vertex_positions,
            vertex_uvs,
            index_counts,
            indices,
        } = raw;
        let n = match convert_i32(count) {
            Some(n) => n,
            None => {
                return Err(Error::InvalidCount("drawable"));
            },
        };
        let ids = match get_ids(ids, n) {
            Some(v) => v,
            None => {
                return Err(Error::GetDataError("drawable ids"));
            },
        };
        let constant_flags = match get_slice(constant_flags, n) {
            Some(v) => v,
            None => {
                return Err(Error::GetDataError("drawable constant flags"));
            },
        };
        if !check_constant_flags(&constant_flags) {
            return Err(Error::GetDataError("drawable constant flags"));
        }
        let dynamic_flags = match get_slice(dynamic_flags, n) {
            Some(v) => v,
            None => {
                return Err(Error::GetDataError("drawable dynamic flags"));
            },
        };
        if !check_dynamic_flags(&dynamic_flags) {
            return Err(Error::GetDataError("drawable dynamic flags"));
        }
        let texture_indices = match get_slice(texture_indices, n) {
            Some(v) => v,
            None => {
                return Err(Error::GetDataError("drawable texture indices"));
            },
        };
        if !check_fits_i32(&texture_indices) {
            return Err(Error::GetDataError("drawable texture indices"));
        }
        let draw_orders = match get_slice(draw_orders, n) {
            Some(v) => v,
            None => {
                return Err(Error::GetDataError("drawable draw orders"));
            },
        };
        let render_orders = match get_slice(render_orders, n) {
            Some(v) => v,
            None => {
                return Err(Error::GetDataError("drawable render orders"));
            },
        };
        let opacities = match get_slice(opacities, n) {
            Some(v) => v,
            None => {
                return Err(Error::GetDataError("drawable opacities"));
            },
        };
        if !check_opacities(&opacities) {
            return Err(Error::GetDataError("drawable opacities"));
        }
        let mask_counts = match get_slice(mask_counts, n) {
            Some(v) => v,
            None => {
                return Err(Error::GetDataError("drawable mask counts"));
            },
        };
        let masks = match get_slice(masks, n) {
            Some(v) => v,
            None => {
                return Err(Error::GetDataError("drawable masks"));
            },
        };
        let masks = match get_nested(&mask_counts, masks) {
            Some(v) => v,
            None => {
                return Err(Error::GetDataError("drawable masks"));
            },
        };
        if !check_rows_fit_i32(&masks) {
            return Err(Error::GetDataError("drawable masks"));
        }
        let vertex_counts = match get_slice(vertex_counts, n) {
            Some(v) => v,
            None => {
                return Err(Error::GetDataError("drawable vertex counts"));
            },
        };
        let vertex_positions = match get_slice(vertex_positions, n) {
            Some(v) => v,
            None => {
                return Err(Error::GetDataError("drawable vertex positions"));
            },
        };
        let ghost raw_positions = vertex_positions@;
        let vertex_positions = match get_nested(&vertex_counts, vertex_positions) {
            Some(v) => v,
            None => {
                return Err(Error::GetDataError("drawable vertex positions"));
            },
        };
        let vertex_uvs = match get_slice(vertex_uvs, n) {
            Some(v) => v,
            None => {
                return Err(Error::GetDataError("drawable vertex uvs"));
            },
        };
        let ghost raw_uvs = vertex_uvs@;
        let vertex_uvs = match get_nested(&vertex_counts, vertex_uvs) {
            Some(v) => v,
            None => {
                return Err(Error::GetDataError("drawable vertex uvs"));
            },
        };
        let index_counts = match get_slice(index_counts, n) {
            Some(v) => v,
            None => {
                return Err(Error::GetDataError("drawable index counts"));
            },
        };
        let indices = match get_slice(indices, n) {
            Some(v) => v,
            None => {
                return Err(Error::GetDataError("drawable indices"));
            },
        };
        let ghost raw_indices = indices@;
        let indices = match get_indices(&index_counts, indices) {
            Ok(v) => v,
            Err(e) => {
                return Err(e);
            },
        };
        proof {
            assert forall|i: int| 0 <= i < n implies (#[trigger] vertex_positions@[i])@.len()
                == vertex_uvs@[i]@.len() by {
                assert(views_of(vertex_positions@)[i] == vertex_positions@[i]@);
                assert(views_of(vertex_uvs@)[i] == vertex_uvs@[i]@);
                assert(present(raw_positions[i], vertex_counts@[i] as int));
                assert(present(raw_uvs[i], vertex_counts@[i] as int));
            }
            assert forall|i: int| 0 <= i < n implies (#[trigger] indices@[i])@.len() % 3 == 0 by {
                assert(views_of(indices@)[i] == indices@[i]@);
                assert(present(raw_indices[i], index_counts@[i] as int));
                assert(index_count_ok(index_counts@[i]));
            }
        }
        Ok(
            Drawables {
                ids,
                constant_flags,
                dynamic_flags,
                texture_indices,
                draw_orders,
                render_orders,
                opacities,
                masks,
                vertex_positions,
                vertex_uvs,
                indices,
            },
        )
    }
}

} // verus!
