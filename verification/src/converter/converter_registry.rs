//! The converter registry: converters kept in order of priority, from the
//! highest; a field is converted by the first converter that handles its
//! type.
//!
//! The process-wide registry lives with the caller, behind a lock; the
//! operations on it here take the registry and, when the lock could not be
//! taken, the lock's error text.

use vstd::prelude::*;
use vstd::string::*;
use crate::common::error::{MacroError, MacroErrorV, MacroResult};
use crate::converter::builtin_converters::{
    BooleanConverter, Converter, NoCustomConverter, NumericConverter, SpecialTypeConverter,
    StringConverter, spec_builtin_converters,
};
use crate::converter::type_converter::{
    TypeConverter, spec_unsupported_field, unsupported_field,
};
use crate::parser::attribute_parser::string_result_view;
use crate::syntax::{SynField, SynFieldV, SynType, SynTypeV};
use crate::text::concat;

verus! {

broadcast use vstd::std_specs::vec::group_vec_axioms;

/// Converters ordered by priority, from the highest.
pub open spec fn spec_sorted<U: TypeConverter>(cs: Seq<Converter<U>>) -> bool {
    forall|i: int, j: int| 0 <= i < j < cs.len() ==> cs[i].spec_priority() >= cs[j].spec_priority()
}

/// The first position from `k` on whose converter has a priority below `p`,
/// or the length when there is none.
pub open spec fn spec_position_below<U: TypeConverter>(cs: Seq<Converter<U>>, p: i32, k: int) -> int
    decreases cs.len() - k,
{
    if k >= cs.len() {
        cs.len() as int
    } else if cs[k].spec_priority() < p {
        k
    } else {
        spec_position_below(cs, p, k + 1)
    }
}

/// Where a converter of priority `p` is inserted: after every converter of
/// the same or a higher priority.
pub open spec fn spec_insert_position<U: TypeConverter>(cs: Seq<Converter<U>>, p: i32) -> int {
    spec_position_below(cs, p, 0)
}

/// The converters after registering `c`.
pub open spec fn spec_register<U: TypeConverter>(cs: Seq<Converter<U>>, c: Converter<U>) -> Seq<Converter<U>> {
    cs.insert(spec_insert_position(cs, c.spec_priority()), c)
}

/// The position of the first converter from `k` on that handles `t`.
pub open spec fn spec_find_from<U: TypeConverter>(cs: Seq<Converter<U>>, t: SynTypeV, k: int) -> Option<int>
    decreases cs.len() - k,
{
    if k >= cs.len() || k < 0 {
        None
    } else if cs[k].spec_supports(t) {
        Some(k)
    } else {
        spec_find_from(cs, t, k + 1)
    }
}

/// The position of the first converter that handles `t`.
pub open spec fn spec_find<U: TypeConverter>(cs: Seq<Converter<U>>, t: SynTypeV) -> Option<int> {
    spec_find_from(cs, t, 0)
}

/// Converting a field with the first converter that handles its type.
pub open spec fn spec_registry_convert<U: TypeConverter>(cs: Seq<Converter<U>>, f: SynFieldV, index: usize) -> Result<
    Seq<char>,
    MacroErrorV,
> {
    match spec_find(cs, f.ty) {
        Some(k) => cs[k].spec_convert(f, index),
        None => Err(spec_unsupported_field(f, index)),
    }
}

proof fn lemma_position_below_bounds<U: TypeConverter>(cs: Seq<Converter<U>>, p: i32, k: int)
    requires
        0 <= k <= cs.len(),
    ensures
        k <= spec_position_below(cs, p, k) <= cs.len(),
        forall|j: int| k <= j < spec_position_below(cs, p, k) ==> cs[j].spec_priority() >= p,
        spec_position_below(cs, p, k) < cs.len() ==> cs[spec_position_below(cs, p, k)].spec_priority()
            < p,
    decreases cs.len() - k,
{
    if k < cs.len() && cs[k].spec_priority() >= p {
        lemma_position_below_bounds(cs, p, k + 1);
    }
}

/// Registering a converter keeps the converters ordered by priority.
pub proof fn lemma_register_keeps_order<U: TypeConverter>(cs: Seq<Converter<U>>, c: Converter<U>)
    requires
        spec_sorted(cs),
    ensures
        spec_sorted(spec_register(cs, c)),
        spec_register(cs, c).len() == cs.len() + 1,
        spec_register(cs, c).contains(c),
{
    let p = c.spec_priority();
    let pos = spec_insert_position(cs, p);
    lemma_position_below_bounds(cs, p, 0);
    let r = spec_register(cs, c);
    assert(r[pos] == c);
    assert forall|i: int, j: int| 0 <= i < j < r.len() implies r[i].spec_priority()
        >= r[j].spec_priority() by {
        if i < pos && j < pos {
        } else if i < pos && j == pos {
        } else if i < pos && j > pos {
            assert(r[j] == cs[j - 1]);
        } else if i == pos {
            assert(r[j] == cs[j - 1]);
            if pos < cs.len() {
                assert(cs[pos].spec_priority() < p);
                assert(cs[pos].spec_priority() >= cs[j - 1].spec_priority() || pos == j - 1);
            }
        } else {
            assert(r[i] == cs[i - 1]);
            assert(r[j] == cs[j - 1]);
        }
    }
}

/// Registering a converter of priority `q` inserts it at the first
/// position whose converter has a priority below `q` (the end when there is
/// none): every converter before it has priority `q` or higher, and the
/// others keep their order after it.
pub proof fn lemma_register_position<U: TypeConverter>(cs: Seq<Converter<U>>, c: Converter<U>)
    ensures
        ({
            let q = c.spec_priority();
            let k = spec_insert_position(cs, q);
            &&& 0 <= k <= cs.len()
            &&& spec_register(cs, c) == cs.subrange(0, k).push(c) + cs.subrange(k, cs.len() as int)
            &&& forall|j: int| 0 <= j < k ==> cs[j].spec_priority() >= q
            &&& k < cs.len() ==> cs[k].spec_priority() < q
        }),
{
    let q = c.spec_priority();
    let k = spec_insert_position(cs, q);
    lemma_position_below_bounds(cs, q, 0);
    assert(spec_register(cs, c) =~= cs.subrange(0, k).push(c) + cs.subrange(k, cs.len() as int));
}

proof fn lemma_find_from_spec<U: TypeConverter>(cs: Seq<Converter<U>>, t: SynTypeV, k: int)
    requires
        0 <= k <= cs.len(),
    ensures
        match spec_find_from(cs, t, k) {
            Some(m) => k <= m < cs.len() && cs[m].spec_supports(t) && forall|j: int|
                k <= j < m ==> !cs[j].spec_supports(t),
            None => forall|j: int| k <= j < cs.len() ==> !cs[j].spec_supports(t),
        },
    decreases cs.len() - k,
{
    if k < cs.len() && !cs[k].spec_supports(t) {
        lemma_find_from_spec(cs, t, k + 1);
    }
}

/// The converter found for a type is the first one, in order of priority,
/// that handles it; when none is found, no converter handles it.
pub proof fn lemma_find_is_first<U: TypeConverter>(cs: Seq<Converter<U>>, t: SynTypeV)
    ensures
        match spec_find(cs, t) {
            Some(m) => 0 <= m < cs.len() && cs[m].spec_supports(t) && forall|j: int|
                0 <= j < m ==> !cs[j].spec_supports(t),
            None => forall|j: int| 0 <= j < cs.len() ==> !cs[j].spec_supports(t),
        },
{
    lemma_find_from_spec(cs, t, 0);
}

/// A registry of converters, kept in order of priority.
pub struct ConverterRegistryImpl<U: TypeConverter = NoCustomConverter> {
    converters: Vec<Converter<U>>,
}

impl<U: TypeConverter> View for ConverterRegistryImpl<U> {
    type V = Seq<Converter<U>>;

    closed spec fn view(&self) -> Seq<Converter<U>> {
        self.converters@
    }
}

impl<U: TypeConverter> ConverterRegistryImpl<U> {
    #[verifier::type_invariant]
    spec fn ordered(self) -> bool {
        spec_sorted(self.converters@)
    }

    /// A registry holding the specialised converters.
    pub fn new() -> (r: Self)
        ensures
            r@ == spec_builtin_converters::<U>(),
    {
        let mut registry = ConverterRegistryImpl { converters: Vec::new() };
        registry.load_builtin_converters();
        proof {
            reveal_with_fuel(spec_position_below, 5);
        }
        assert(registry@ =~= spec_builtin_converters());
        registry
    }

    /// Registers the specialised converters, in order.
    fn load_builtin_converters(&mut self)
        ensures
            final(self)@ == spec_register(
                spec_register(
                    spec_register(spec_register(old(self)@, spec_builtin_converters()[0]), spec_builtin_converters()[1]),
                    spec_builtin_converters()[2],
                ),
                spec_builtin_converters()[3],
            ),
    {
        self.register_converter_internal(Converter::Numeric(NumericConverter::new()));
        self.register_converter_internal(Converter::Text(StringConverter::new()));
        self.register_converter_internal(Converter::Boolean(BooleanConverter::new()));
        self.register_converter_internal(Converter::Special(SpecialTypeConverter::new()));
    }

    /// Inserts a converter after every converter of the same or a higher
    /// priority.
    fn register_converter_internal(&mut self, converter: Converter<U>)
        ensures
            final(self)@ == spec_register(old(self)@, converter),
    {
        proof {
            use_type_invariant(&*self);
        }
        let priority = converter.priority();
        let n = self.converters.len();
        let mut pos: usize = 0;
        while pos < n && self.converters[pos].priority() >= priority
            invariant
                n == self.converters@.len(),
                pos <= n,
                priority == converter.spec_priority(),
                spec_position_below(self.converters@, priority, 0) == spec_position_below(
                    self.converters@,
                    priority,
                    pos as int,
                ),
            decreases n - pos,
        {
            pos = pos + 1;
        }
        proof {
            lemma_register_keeps_order(self.converters@, converter);
        }
        let mut cs: Vec<Converter<U>> = Vec::new();
        std::mem::swap(&mut cs, &mut self.converters);
        cs.insert(pos, converter);
        self.converters = cs;
    }
}

/// The operations of a converter registry.
pub trait ConverterRegistry<U: TypeConverter> {
    /// The registered converters, in the order they are tried.
    spec fn converters_view(&self) -> Seq<Converter<U>>;

    /// Registers a converter after every converter of the same or a higher
    /// priority.
    fn register_converter(&mut self, converter: Converter<U>)
        ensures
            final(self).converters_view() == spec_register(old(self).converters_view(), converter),
    ;

    /// The first converter, in order, that handles the type.
    fn find_converter_for_type(&self, field_type: &SynType) -> (r: Option<&Converter<U>>)
        ensures
            match spec_find(self.converters_view(), field_type@) {
                Some(k) => r is Some && *r->Some_0 == self.converters_view()[k],
                None => r is None,
            },
    ;

    /// Converts the named field with this index with the first converter
    /// that handles its type; a field no converter handles is refused.
    fn convert_field(&self, field: &SynField, index: usize) -> (r: MacroResult<String>)
        ensures
            string_result_view(r) == spec_registry_convert(self.converters_view(), field@, index),
    ;

    /// The number of registered converters.
    fn converter_count(&self) -> (r: usize)
        ensures
            r == self.converters_view().len(),
    ;

    /// Removes every converter.
    fn clear_converters(&mut self)
        ensures
            final(self).converters_view() == Seq::<Converter<U>>::empty(),
    ;

    /// Replaces the converters by the specialised ones.
    fn reload_default_converters(&mut self)
        ensures
            final(self).converters_view() == spec_builtin_converters::<U>(),
    ;
}

impl<U: TypeConverter> Default for ConverterRegistryImpl<U> {
    fn default() -> (r: Self)
        ensures
            r@ == spec_builtin_converters::<U>(),
    {
        ConverterRegistryImpl::new()
    }
}

impl<U: TypeConverter> ConverterRegistry<U> for ConverterRegistryImpl<U> {
    open spec fn converters_view(&self) -> Seq<Converter<U>> {
        self@
    }

    fn register_converter(&mut self, converter: Converter<U>) {
        self.register_converter_internal(converter);
    }

    fn find_converter_for_type(&self, field_type: &SynType) -> (r: Option<&Converter<U>>) {
        let n = self.converters.len();
        let mut i: usize = 0;
        while i < n
            invariant
                n == self.converters@.len(),
                i <= n,
                spec_find(self@, field_type@) == spec_find_from(self@, field_type@, i as int),
                self@ == self.converters@,
            decreases n - i,
        {
            if self.converters[i].supports_type(field_type) {
                return Some(&self.converters[i]);
            }
            i = i + 1;
        }
        None
    }

    fn convert_field(&self, field: &SynField, index: usize) -> (r: MacroResult<String>) {
        match self.find_converter_for_type(&field.ty) {
            Some(converter) => converter.convert_field_to_json_value(field, index),
            None => Err(unsupported_field(field, index)),
        }
    }

    fn converter_count(&self) -> (r: usize) {
        self.converters.len()
    }

    fn clear_converters(&mut self) {
        self.converters = Vec::new();
    }

    fn reload_default_converters(&mut self) {
        self.clear_converters();
        self.load_builtin_converters();
        proof {
            reveal_with_fuel(spec_position_below, 5);
        }
        assert(self@ =~= spec_builtin_converters());
    }
}

/// The lock error text of a registry operation that could not take the
/// registry's lock.
pub open spec fn spec_lock_message(prefix: Seq<char>, error: Seq<char>) -> Seq<char> {
    prefix + error
}

/// Operations on the process-wide registry. Each takes the registry and
/// `lock_error`: the text of the error met taking the registry's lock, if
/// one was met, in which case the registry is left as it is.
pub struct GlobalConverterRegistry;

impl GlobalConverterRegistry {
    /// Registers a converter.
    pub fn register<U: TypeConverter>(
        registry: &mut ConverterRegistryImpl<U>,
        lock_error: Option<String>,
        converter: Converter<U>,
    ) -> (r: Result<(), String>)
        ensures
            match lock_error {
                Some(e) => r is Err && r->Err_0@ == spec_lock_message("无法获取注册表写锁: "@, e@)
                    && final(registry)@ == old(registry)@,
                None => r is Ok && final(registry)@ == spec_register(old(registry)@, converter),
            },
    {
        match lock_error {
            Some(e) => Err(concat("无法获取注册表写锁: ", e.as_str())),
            None => {
                registry.register_converter(converter);
                Ok(())
            },
        }
    }

    /// Converts the named field with this index.
    pub fn convert_field<U: TypeConverter>(
        registry: &ConverterRegistryImpl<U>,
        lock_error: Option<String>,
        field: &SynField,
        index: usize,
    ) -> (r: MacroResult<String>)
        ensures
            string_result_view(r) == match lock_error {
                Some(e) => Err(
                    MacroErrorV::GenerationError {
                        message: spec_lock_message("无法获取注册表读锁: "@, e@),
                        span: None,
                    },
                ),
                None => spec_registry_convert(registry@, field@, index),
            },
    {
        match lock_error {
            Some(e) => Err(
                MacroError::GenerationError {
                    message: concat("无法获取注册表读锁: ", e.as_str()),
                    span: None,
                },
            ),
            None => registry.convert_field(field, index),
        }
    }

    /// The number of registered converters.
    pub fn converter_count<U: TypeConverter>(registry: &ConverterRegistryImpl<U>, lock_error: Option<String>) -> (r:
        Result<usize, String>)
        ensures
            match lock_error {
                Some(e) => r is Err && r->Err_0@ == spec_lock_message("无法获取注册表读锁: "@, e@),
                None => r == Ok::<usize, String>(registry@.len() as usize),
            },
    {
        match lock_error {
            Some(e) => Err(concat("无法获取注册表读锁: ", e.as_str())),
            None => Ok(registry.converter_count()),
        }
    }

    /// Removes every converter.
    pub fn clear_all<U: TypeConverter>(registry: &mut ConverterRegistryImpl<U>, lock_error: Option<String>) -> (r: Result<
        (),
        String,
    >)
        ensures
            match lock_error {
                Some(e) => r is Err && r->Err_0@ == spec_lock_message("无法获取注册表写锁: "@, e@)
                    && final(registry)@ == old(registry)@,
                None => r is Ok && final(registry)@ == Seq::<Converter<U>>::empty(),
            },
    {
        match lock_error {
            Some(e) => Err(concat("无法获取注册表写锁: ", e.as_str())),
            None => {
                registry.clear_converters();
                Ok(())
            },
        }
    }

    /// Replaces the converters by the specialised ones.
    pub fn reload_defaults<U: TypeConverter>(registry: &mut ConverterRegistryImpl<U>, lock_error: Option<String>) -> (r:
        Result<(), String>)
        ensures
            match lock_error {
                Some(e) => r is Err && r->Err_0@ == spec_lock_message("无法获取注册表写锁: "@, e@)
                    && final(registry)@ == old(registry)@,
                None => r is Ok && final(registry)@ == spec_builtin_converters::<U>(),
            },
    {
        match lock_error {
            Some(e) => Err(concat("无法获取注册表写锁: ", e.as_str())),
            None => {
                registry.reload_default_converters();
                Ok(())
            },
        }
    }

    /// Whether some registered converter handles the type.
    pub fn supports_type<U: TypeConverter>(
        registry: &ConverterRegistryImpl<U>,
        lock_error: Option<String>,
        field_type: &SynType,
    ) -> (r: Result<bool, String>)
        ensures
            match lock_error {
                Some(e) => r is Err && r->Err_0@ == spec_lock_message("无法获取注册表读锁: "@, e@),
                None => r == Ok::<bool, String>(spec_find(registry@, field_type@) is Some),
            },
    {
        match lock_error {
            Some(e) => Err(concat("无法获取注册表读锁: ", e.as_str())),
            None => Ok(registry.find_converter_for_type(field_type).is_some()),
        }
    }
}

/// A converter of the library converts a named field exactly when it
/// handles the field's type.
pub proof fn lemma_convert_iff_supported<U: TypeConverter>(c: Converter<U>, f: SynFieldV, index: usize)
    requires
        f.ident is Some,
        !(c is Custom),
    ensures
        (c.spec_convert(f, index) is Ok) == c.spec_supports(f.ty),
{
}

/// A registry of the library's converters converts a named field exactly
/// when some registered converter handles its type.
pub proof fn lemma_registry_converts_iff_found<U: TypeConverter>(cs: Seq<Converter<U>>, f: SynFieldV, index: usize)
    requires
        f.ident is Some,
        forall|j: int| 0 <= j < cs.len() ==> !(#[trigger] cs[j] is Custom),
    ensures
        (spec_registry_convert(cs, f, index) is Ok) == (spec_find(cs, f.ty) is Some),
        (spec_find(cs, f.ty) is Some) == (exists|j: int| 0 <= j < cs.len() && cs[j].spec_supports(f.ty)),
{
    lemma_find_is_first(cs, f.ty);
    if let Some(k) = spec_find(cs, f.ty) {
        lemma_convert_iff_supported(cs[k], f, index);
    }
}

} // verus!
