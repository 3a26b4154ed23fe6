//! Function signatures, the parameter counts of static and overloaded
//! functions, and the closure functions over arrays.
//!
//! Parameter and return types are a type parameter `T` here: the variable
//! type model of the expression language is supplied by its user.

use vstd::prelude::*;
use vstd::string::*;
use crate::text::{spec_decimal, str_eq, usize_to_decimal};

verus! {

broadcast use vstd::std_specs::vec::group_vec_axioms;

/// A function signature: parameter types and return type.
pub struct FunctionSignature<T> {
    pub parameters: Vec<T>,
    pub return_type: T,
}

impl<T> FunctionSignature<T> {
    /// The signature of a function of one parameter.
    pub fn single(parameter: T, return_type: T) -> (r: Self)
        ensures
            r.parameters@ == seq![parameter],
            r.return_type == return_type,
    {
        let mut parameters = Vec::new();
        parameters.push(parameter);
        FunctionSignature { parameters, return_type }
    }
}

/// The outcome of checking call arguments against a function: a general
/// error, errors by argument position, and the return type.
pub struct FunctionTypecheck<T> {
    pub general: Option<String>,
    pub arguments: Vec<(usize, String)>,
    pub return_type: T,
}

/// A function that expressions can call: how many parameters it requires
/// and how many more it accepts.
pub trait FunctionDefinition {
    /// The number of required parameters.
    spec fn spec_required_parameters(&self) -> nat;

    /// The number of optional parameters.
    spec fn spec_optional_parameters(&self) -> nat;

    /// The number of required parameters.
    fn required_parameters(&self) -> (r: usize)
        ensures
            r == self.spec_required_parameters(),
    ;

    /// The number of optional parameters.
    fn optional_parameters(&self) -> (r: usize)
        ensures
            r == self.spec_optional_parameters(),
    ;
}

/// A function with one signature.
pub struct StaticFunction<T> {
    pub signature: FunctionSignature<T>,
}

impl<T> FunctionDefinition for StaticFunction<T> {
    open spec fn spec_required_parameters(&self) -> nat {
        self.signature.parameters@.len()
    }

    open spec fn spec_optional_parameters(&self) -> nat {
        0
    }

    /// Every parameter is required.
    fn required_parameters(&self) -> (r: usize) {
        self.signature.parameters.len()
    }

    /// No parameter is optional.
    fn optional_parameters(&self) -> (r: usize) {
        0
    }
}

/// The message of a static function called with `n` arguments where it
/// takes `required`.
pub open spec fn spec_static_arity_message(required: nat, n: nat) -> Seq<char> {
    "期望 `"@ + spec_decimal(required) + "` 参数, 实际 `"@ + spec_decimal(n) + "` 参数."@
}

impl<T> StaticFunction<T> {
    /// The general error of checking `n` call arguments against the
    /// signature: a message when the count differs from the parameter
    /// count, and none otherwise.
    pub fn check_arity(&self, n: usize) -> (r: Option<String>)
        ensures
            match r {
                Some(m) => n != self.signature.parameters@.len() && m@ == spec_static_arity_message(
                    self.signature.parameters@.len(),
                    n as nat,
                ),
                None => n == self.signature.parameters@.len(),
            },
    {
        let required = self.required_parameters();
        if n != required {
            let mut m = String::from_str("期望 `");
            m.append(usize_to_decimal(required).as_str());
            m.append("` 参数, 实际 `");
            m.append(usize_to_decimal(n).as_str());
            m.append("` 参数.");
            Some(m)
        } else {
            None
        }
    }
}

/// A function with several signatures (overloads).
pub struct CompositeFunction<T> {
    pub signatures: Vec<FunctionSignature<T>>,
}

/// The parameter counts of the signatures.
pub open spec fn spec_param_counts<T>(sigs: Seq<FunctionSignature<T>>) -> Seq<nat> {
    sigs.map_values(|s: FunctionSignature<T>| s.parameters@.len())
}

/// The least of the first `n` counts (0 for none).
pub open spec fn spec_min_count(counts: Seq<nat>, n: nat) -> nat
    decreases n,
{
    if n == 0 {
        0
    } else if n == 1 {
        counts[0]
    } else {
        let m = spec_min_count(counts, (n - 1) as nat);
        if counts[n - 1] < m {
            counts[n - 1]
        } else {
            m
        }
    }
}

/// The greatest of the first `n` counts (0 for none).
pub open spec fn spec_max_count(counts: Seq<nat>, n: nat) -> nat
    decreases n,
{
    if n == 0 {
        0
    } else {
        let m = spec_max_count(counts, (n - 1) as nat);
        if counts[n - 1] > m {
            counts[n - 1]
        } else {
            m
        }
    }
}

proof fn lemma_min_le_max(counts: Seq<nat>, n: nat)
    requires
        n <= counts.len(),
    ensures
        spec_min_count(counts, n) <= spec_max_count(counts, n),
        n > 0 ==> forall|i: int| 0 <= i < n ==> spec_min_count(counts, n) <= #[trigger] counts[i] <= spec_max_count(counts, n),
    decreases n,
{
    if n > 1 {
        lemma_min_le_max(counts, (n - 1) as nat);
    }
}

impl<T> FunctionDefinition for CompositeFunction<T> {
    open spec fn spec_required_parameters(&self) -> nat {
        spec_min_count(spec_param_counts(self.signatures@), self.signatures@.len())
    }

    open spec fn spec_optional_parameters(&self) -> nat {
        (spec_max_count(spec_param_counts(self.signatures@), self.signatures@.len())
            - spec_min_count(spec_param_counts(self.signatures@), self.signatures@.len())) as nat
    }

    /// The fewest parameters of any overload (0 without overloads).
    fn required_parameters(&self) -> (r: usize) {
        let ghost counts = spec_param_counts(self.signatures@);
        let n = self.signatures.len();
        let mut m: usize = 0;
        let mut i: usize = 0;
        while i < n
            invariant
                n == self.signatures@.len(),
                counts == spec_param_counts(self.signatures@),
                i <= n,
                m == spec_min_count(counts, i as nat),
            decreases n - i,
        {
            let c = self.signatures[i].parameters.len();
            assert(counts[i as int] == c);
            if i == 0 || c < m {
                m = c;
            }
            i = i + 1;
        }
        m
    }

    /// How many more parameters the longest overload takes than the
    /// shortest.
    fn optional_parameters(&self) -> (r: usize) {
        let required = self.required_parameters();
        let ghost counts = spec_param_counts(self.signatures@);
        let n = self.signatures.len();
        let mut m: usize = 0;
        let mut i: usize = 0;
        while i < n
            invariant
                n == self.signatures@.len(),
                counts == spec_param_counts(self.signatures@),
                i <= n,
                m == spec_max_count(counts, i as nat),
            decreases n - i,
        {
            let c = self.signatures[i].parameters.len();
            assert(counts[i as int] == c);
            if c > m {
                m = c;
            }
            i = i + 1;
        }
        proof {
            lemma_min_le_max(counts, n as nat);
        }
        m - required
    }
}

/// Every overload takes at least the required number of parameters and at
/// most the required plus the optional number.
pub proof fn lemma_overload_counts_in_range<T>(sigs: Seq<FunctionSignature<T>>)
    ensures
        forall|i: int|
            0 <= i < sigs.len() ==> spec_min_count(spec_param_counts(sigs), sigs.len())
                <= (#[trigger] sigs[i]).parameters@.len() <= spec_max_count(
                spec_param_counts(sigs),
                sigs.len(),
            ),
{
    let counts = spec_param_counts(sigs);
    lemma_min_le_max(counts, sigs.len());
    assert forall|i: int| 0 <= i < sigs.len() implies spec_min_count(counts, sigs.len())
        <= (#[trigger] sigs[i]).parameters@.len() <= spec_max_count(counts, sigs.len()) by {
        assert(counts[i] == sigs[i].parameters@.len());
    }
}

proof fn lemma_min_attained(counts: Seq<nat>, n: nat)
    requires
        0 < n <= counts.len(),
    ensures
        exists|i: int| 0 <= i < n && counts[i] == spec_min_count(counts, n),
    decreases n,
{
    if n == 1 {
        assert(counts[0] == spec_min_count(counts, n));
    } else {
        lemma_min_attained(counts, (n - 1) as nat);
        if counts[n - 1] < spec_min_count(counts, (n - 1) as nat) {
            assert(counts[n - 1] == spec_min_count(counts, n));
        }
    }
}

proof fn lemma_max_attained(counts: Seq<nat>, n: nat)
    requires
        0 < n <= counts.len(),
    ensures
        exists|i: int| 0 <= i < n && counts[i] == spec_max_count(counts, n),
    decreases n,
{
    if n == 1 {
        assert(spec_max_count(counts, 0) == 0);
        assert(counts[0] == spec_max_count(counts, n));
    } else {
        lemma_max_attained(counts, (n - 1) as nat);
        if counts[n - 1] > spec_max_count(counts, (n - 1) as nat) {
            assert(counts[n - 1] == spec_max_count(counts, n));
        }
    }
}

/// An overloaded function requires as many parameters as its shortest
/// overload takes, and accepts, required and optional together, as many as
/// its longest overload takes: some overload takes exactly the required
/// number and none fewer, some overload takes exactly the required plus the
/// optional number and none more. Without overloads both numbers are zero.
pub proof fn lemma_composite_parameter_counts<T>(f: CompositeFunction<T>)
    ensures
        f.signatures@.len() == 0 ==> f.spec_required_parameters() == 0
            && f.spec_optional_parameters() == 0,
        f.signatures@.len() > 0 ==> exists|i: int|
            0 <= i < f.signatures@.len() && (#[trigger] f.signatures@[i]).parameters@.len()
                == f.spec_required_parameters(),
        forall|i: int|
            0 <= i < f.signatures@.len() ==> f.spec_required_parameters() <= (
            #[trigger] f.signatures@[i]).parameters@.len(),
        f.signatures@.len() > 0 ==> exists|i: int|
            0 <= i < f.signatures@.len() && (#[trigger] f.signatures@[i]).parameters@.len()
                == f.spec_required_parameters() + f.spec_optional_parameters(),
        forall|i: int|
            0 <= i < f.signatures@.len() ==> (#[trigger] f.signatures@[i]).parameters@.len()
                <= f.spec_required_parameters() + f.spec_optional_parameters(),
{
    let sigs = f.signatures@;
    let counts = spec_param_counts(sigs);
    lemma_min_le_max(counts, sigs.len());
    lemma_overload_counts_in_range(sigs);
    if sigs.len() > 0 {
        lemma_min_attained(counts, sigs.len());
        lemma_max_attained(counts, sigs.len());
        let i = choose|i: int| 0 <= i < sigs.len() && counts[i] == spec_min_count(counts, sigs.len());
        let j = choose|j: int| 0 <= j < sigs.len() && counts[j] == spec_max_count(counts, sigs.len());
        assert(counts[i] == sigs[i].parameters@.len());
        assert(counts[j] == sigs[j].parameters@.len());
    }
}

/// The closure functions over arrays.
#[derive(PartialEq, Eq, Structural, Clone, Copy, Debug, Hash)]
pub enum ClosureFunction {
    /// Every element satisfies the condition.
    All,
    /// No element satisfies the condition.
    NoneOf,
    /// Some element satisfies the condition.
    SomeOf,
    /// Exactly one element satisfies the condition.
    One,
    /// The elements that satisfy the condition.
    Filter,
    /// Each element mapped.
    MapEach,
    /// Each element mapped, the results flattened.
    FlatMap,
    /// How many elements satisfy the condition.
    Count,
}

/// The name of a closure function in expressions (camelCase).
pub open spec fn spec_closure_name(c: ClosureFunction) -> Seq<char> {
    match c {
        ClosureFunction::All => "all"@,
        ClosureFunction::NoneOf => "none"@,
        ClosureFunction::SomeOf => "some"@,
        ClosureFunction::One => "one"@,
        ClosureFunction::Filter => "filter"@,
        ClosureFunction::MapEach => "map"@,
        ClosureFunction::FlatMap => "flatMap"@,
        ClosureFunction::Count => "count"@,
    }
}

/// Every closure function, in declaration order.
pub open spec fn spec_all_closures() -> Seq<ClosureFunction> {
    seq![
        ClosureFunction::All,
        ClosureFunction::NoneOf,
        ClosureFunction::SomeOf,
        ClosureFunction::One,
        ClosureFunction::Filter,
        ClosureFunction::MapEach,
        ClosureFunction::FlatMap,
        ClosureFunction::Count,
    ]
}

impl ClosureFunction {
    /// The function's name in expressions.
    pub fn as_str(&self) -> (r: &'static str)
        ensures
            r@ == spec_closure_name(*self),
    {
        match self {
            ClosureFunction::All => "all",
            ClosureFunction::NoneOf => "none",
            ClosureFunction::SomeOf => "some",
            ClosureFunction::One => "one",
            ClosureFunction::Filter => "filter",
            ClosureFunction::MapEach => "map",
            ClosureFunction::FlatMap => "flatMap",
            ClosureFunction::Count => "count",
        }
    }

    /// Every closure function, in declaration order.
    pub fn all() -> (r: Vec<ClosureFunction>)
        ensures
            r@ == spec_all_closures(),
    {
        let r = vec![
            ClosureFunction::All,
            ClosureFunction::NoneOf,
            ClosureFunction::SomeOf,
            ClosureFunction::One,
            ClosureFunction::Filter,
            ClosureFunction::MapEach,
            ClosureFunction::FlatMap,
            ClosureFunction::Count,
        ];
        assert(r@ =~= spec_all_closures());
        r
    }

    /// The closure function with this name, if there is one.
    pub fn from_name(name: &str) -> (r: Option<ClosureFunction>)
        ensures
            match r {
                Some(c) => spec_closure_name(c) == name@,
                None => forall|c: ClosureFunction| spec_closure_name(c) != name@,
            },
    {
        let all = Self::all();
        let mut i: usize = 0;
        while i < all.len()
            invariant
                all@ == spec_all_closures(),
                i <= all@.len(),
                forall|j: int| 0 <= j < i ==> spec_closure_name(#[trigger] all@[j]) != name@,
            decreases all@.len() - i,
        {
            let c = all[i];
            if str_eq(c.as_str(), name) {
                return Some(c);
            }
            i = i + 1;
        }
        proof {
            assert forall|c: ClosureFunction| spec_closure_name(c) != name@ by {
                match c {
                    ClosureFunction::All => assert(all@[0] == c),
                    ClosureFunction::NoneOf => assert(all@[1] == c),
                    ClosureFunction::SomeOf => assert(all@[2] == c),
                    ClosureFunction::One => assert(all@[3] == c),
                    ClosureFunction::Filter => assert(all@[4] == c),
                    ClosureFunction::MapEach => assert(all@[5] == c),
                    ClosureFunction::FlatMap => assert(all@[6] == c),
                    ClosureFunction::Count => assert(all@[7] == c),
                }
            }
        }
        None
    }
}

/// Reading a closure function's name gives the function back.
pub proof fn lemma_closure_name_round_trip(c: ClosureFunction, d: ClosureFunction)
    ensures
        spec_closure_name(c) == spec_closure_name(d) ==> c == d,
{
    reveal_strlit("all");
    reveal_strlit("none");
    reveal_strlit("some");
    reveal_strlit("one");
    reveal_strlit("filter");
    reveal_strlit("map");
    reveal_strlit("flatMap");
    reveal_strlit("count");
    if spec_closure_name(c) == spec_closure_name(d) && c != d {
        let n = spec_closure_name(c);
        assert(n.len() == spec_closure_name(d).len());
        assert(n[0] == spec_closure_name(d)[0]);
        assert(n[1] == spec_closure_name(d)[1]);
    }
}

/// The message of an overloaded function called with `n` arguments
/// outside the accepted range `required ..= total`.
pub open spec fn spec_composite_arity_message(required: nat, total: nat, n: nat) -> Seq<char> {
    "Expected `"@ + spec_decimal(required) + " - "@ + spec_decimal(total) + "` arguments, got `"@
        + spec_decimal(n) + "`."@
}

impl<T> CompositeFunction<T> {
    /// The general error that checking `n` call arguments sets before the
    /// overloads are matched: `No implementation` without overloads, the
    /// range message when `n` is outside `required ..= required + optional`,
    /// and none otherwise.
    pub fn check_arity(&self, n: usize) -> (r: Option<String>)
        ensures
            ({
                let req = self.spec_required_parameters();
                let total = req + self.spec_optional_parameters();
                if self.signatures@.len() == 0 {
                    r matches Some(m) && m@ == "No implementation"@
                } else if n < req || n > total {
                    r matches Some(m) && m@ == spec_composite_arity_message(req, total as nat, n as nat)
                } else {
                    r is None
                }
            }),
    {
        if self.signatures.len() == 0 {
            return Some(String::from_str("No implementation"));
        }
        let required = self.required_parameters();
        let total = self.max_parameters();
        proof {
            lemma_min_le_max(spec_param_counts(self.signatures@), self.signatures@.len());
        }
        if n < required || n > total {
            let mut m = String::from_str("Expected `");
            m.append(usize_to_decimal(required).as_str());
            m.append(" - ");
            m.append(usize_to_decimal(total).as_str());
            m.append("` arguments, got `");
            m.append(usize_to_decimal(n).as_str());
            m.append("`.");
            Some(m)
        } else {
            None
        }
    }

    /// The most parameters any overload takes (0 without overloads).
    fn max_parameters(&self) -> (r: usize)
        ensures
            r == spec_max_count(spec_param_counts(self.signatures@), self.signatures@.len()),
    {
        let ghost counts = spec_param_counts(self.signatures@);
        let n = self.signatures.len();
        let mut m: usize = 0;
        let mut i: usize = 0;
        while i < n
            invariant
                n == self.signatures@.len(),
                counts == spec_param_counts(self.signatures@),
                i <= n,
                m == spec_max_count(counts, i as nat),
            decreases n - i,
        {
            let c = self.signatures[i].parameters.len();
            assert(counts[i as int] == c);
            if c > m {
                m = c;
            }
            i = i + 1;
        }
        m
    }
}

} // verus!
