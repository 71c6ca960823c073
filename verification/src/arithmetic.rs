//! The two arithmetic tools, `Add` and `Sub`, and the registry that offers
//! them.

use vstd::prelude::*;
use vstd::string::*;
use crate::arguments::{value_of, Arguments};
use crate::content::ContentView;
use crate::decimal::{decimal, decimal_value, lemma_decimal_round_trip};
use crate::descriptor::{DescriptorView, ParameterSpec, ParameterView, ToolDescriptor};
use crate::executor::{declared_faults, first_fault, invoke_spec, unknown_keys, violation,
    InvocationErrorView};
use crate::handler::{FailureView, HandlerFailure, ToolHandler};
use crate::registry::{find, names, wf, EntryView, ToolRegistry};
use crate::search::{is_first, lemma_first_absent, lemma_first_found, occurrences};
use crate::value::{Value, ValueKind, ValueView};

verus! {

/// `n` fits the number type of [`Value`].
pub open spec fn fits(n: int) -> bool {
    i64::MIN <= n <= i64::MAX
}

/// Adds two numbers; fails when the sum does not fit.
pub fn add_tool(a: i64, b: i64) -> (r: Result<i64, HandlerFailure>)
    ensures
        fits(a + b) ==> r == Ok::<i64, HandlerFailure>((a + b) as i64),
        !fits(a + b) ==> r == Err::<i64, HandlerFailure>(HandlerFailure::Overflow),
{
    match a.checked_add(b) {
        Some(n) => Ok(n),
        None => Err(HandlerFailure::Overflow),
    }
}

/// Subtracts the second number from the first; fails when the difference
/// does not fit.
pub fn sub_tool(a: i64, b: i64) -> (r: Result<i64, HandlerFailure>)
    ensures
        fits(a - b) ==> r == Ok::<i64, HandlerFailure>((a - b) as i64),
        !fits(a - b) ==> r == Err::<i64, HandlerFailure>(HandlerFailure::Overflow),
{
    match a.checked_sub(b) {
        Some(n) => Ok(n),
        None => Err(HandlerFailure::Overflow),
    }
}

/// The two arithmetic tools. Each reads the numbers `a` and `b`.
#[derive(Clone, Copy, Debug, PartialEq, Eq, Structural)]
pub enum Arithmetic {
    Add,
    Sub,
}

impl Arithmetic {
    /// The exact result of the operation.
    pub open spec fn compute(self, a: int, b: int) -> int {
        match self {
            Arithmetic::Add => a + b,
            Arithmetic::Sub => a - b,
        }
    }

    /// The descriptor under which the tool is offered.
    pub open spec fn descriptor_view(self) -> DescriptorView {
        match self {
            Arithmetic::Add => DescriptorView {
                name: "Add"@,
                description: "Adds two numbers together."@,
                parameters: seq![
                    ParameterView {
                        name: "a"@,
                        description: "The first number to add"@,
                        required: true,
                        kind: ValueKind::Number,
                    },
                    ParameterView {
                        name: "b"@,
                        description: "The second number to add"@,
                        required: true,
                        kind: ValueKind::Number,
                    },
                ],
            },
            Arithmetic::Sub => DescriptorView {
                name: "Sub"@,
                description: "Subtract 2nd number from 1st"@,
                parameters: seq![
                    ParameterView {
                        name: "a"@,
                        description: "The first number"@,
                        required: true,
                        kind: ValueKind::Number,
                    },
                    ParameterView {
                        name: "b"@,
                        description: "The second number"@,
                        required: true,
                        kind: ValueKind::Number,
                    },
                ],
            },
        }
    }

    /// The descriptor under which the tool is offered.
    pub fn descriptor(self) -> (d: ToolDescriptor)
        ensures
            d@ == self.descriptor_view(),
    {
        proof {
            reveal_strlit("Add");
            reveal_strlit("Sub");
        }
        match self {
            Arithmetic::Add => {
                let d = ToolDescriptor::new("Add", "Adds two numbers together.").unwrap()
                    .with_parameter(ParameterSpec::number("a", "The first number to add"))
                    .with_parameter(ParameterSpec::number("b", "The second number to add"));
                assert(d@.parameters =~= self.descriptor_view().parameters);
                d
            },
            Arithmetic::Sub => {
                let d = ToolDescriptor::new("Sub", "Subtract 2nd number from 1st").unwrap()
                    .with_parameter(ParameterSpec::number("a", "The first number"))
                    .with_parameter(ParameterSpec::number("b", "The second number"));
                assert(d@.parameters =~= self.descriptor_view().parameters);
                d
            },
        }
    }
}

impl ToolHandler for Arithmetic {
    open spec fn outcome(&self, args: Seq<(Seq<char>, ValueView)>) -> Result<
        ValueView,
        FailureView,
    > {
        match (value_of(args, "a"@), value_of(args, "b"@)) {
            (Some(ValueView::Number(a)), Some(ValueView::Number(b))) => {
                if fits(self.compute(a, b)) {
                    Ok(ValueView::Number(self.compute(a, b)))
                } else {
                    Err(FailureView::Overflow)
                }
            },
            _ => Err(FailureView::BadArguments),
        }
    }

    fn call(&self, args: &Arguments) -> (r: Result<Value, HandlerFailure>) {
        match (args.get("a"), args.get("b")) {
            (Some(Value::Number(a)), Some(Value::Number(b))) => {
                let computed = match self {
                    Arithmetic::Add => add_tool(*a, *b),
                    Arithmetic::Sub => sub_tool(*a, *b),
                };
                match computed {
                    Ok(n) => Ok(Value::Number(n)),
                    Err(e) => Err(e),
                }
            },
            _ => Err(HandlerFailure::BadArguments),
        }
    }
}

/// The registry that offers `Add` and then `Sub`.
pub open spec fn arithmetic_view() -> Seq<EntryView<Arithmetic>> {
    seq![
        EntryView { descriptor: Arithmetic::Add.descriptor_view(), handler: Arithmetic::Add },
        EntryView { descriptor: Arithmetic::Sub.descriptor_view(), handler: Arithmetic::Sub },
    ]
}

/// A registry with `Add` and `Sub`, in that order.
pub fn arithmetic_registry() -> (r: ToolRegistry<Arithmetic>)
    ensures
        r@ == arithmetic_view(),
{
    let mut r: ToolRegistry<Arithmetic> = ToolRegistry::new();
    let first = r.register(Arithmetic::Add.descriptor(), Arithmetic::Add);
    proof {
        lemma_names_differ();
        lemma_first_absent(occurrences(names(Seq::<EntryView<Arithmetic>>::empty()), "Add"@));
    }
    assert(first is Ok);
    let ghost one = r@;
    let second = r.register(Arithmetic::Sub.descriptor(), Arithmetic::Sub);
    proof {
        lemma_first_absent(occurrences(names(one), "Sub"@));
    }
    assert(second is Ok);
    assert(r@ =~= arithmetic_view());
    r
}

/// The names that the arithmetic tools use are pairwise different, and none
/// is empty.
pub proof fn lemma_names_differ()
    ensures
        "Add"@ != "Sub"@,
        "a"@ != "b"@,
        "Add"@.len() > 0,
        "Sub"@.len() > 0,
{
    reveal_strlit("Add");
    reveal_strlit("Sub");
    reveal_strlit("a");
    reveal_strlit("b");
    assert("Add"@[0] != "Sub"@[0]);
    assert("a"@[0] != "b"@[0]);
}

/// The arithmetic registry is well formed and finds `Add` first and `Sub`
/// second.
pub proof fn lemma_arithmetic_registry()
    ensures
        wf(arithmetic_view()),
        find(arithmetic_view(), "Add"@) == Some(0int),
        find(arithmetic_view(), "Sub"@) == Some(1int),
{
    lemma_names_differ();
    let reg = arithmetic_view();
    assert(is_first(occurrences(names(reg), "Add"@), 0));
    lemma_first_found(occurrences(names(reg), "Add"@), 0);
    assert(is_first(occurrences(names(reg), "Sub"@), 1));
    lemma_first_found(occurrences(names(reg), "Sub"@), 1);
}

/// Arguments that give the numbers `a` and `b` to the parameters of those
/// names, and hold no key besides, are valid for both tools.
pub proof fn lemma_pair_is_valid(
    op: Arithmetic,
    args: Seq<(Seq<char>, ValueView)>,
    a: int,
    b: int,
)
    requires
        value_of(args, "a"@) == Some(ValueView::Number(a)),
        value_of(args, "b"@) == Some(ValueView::Number(b)),
        forall|k: int| 0 <= k < args.len() ==> (#[trigger] args[k]).0 == "a"@ || args[k].0 == "b"@,
    ensures
        first_fault(op.descriptor_view(), args) is None,
{
    lemma_names_differ();
    let d = op.descriptor_view();
    let declared = declared_faults(d.parameters, args);
    assert(violation(d.parameters[0], args) is None);
    assert(violation(d.parameters[1], args) is None);
    lemma_first_absent(declared);
    let unknown = unknown_keys(d, args);
    let pn = d.parameter_names();
    assert(is_first(occurrences(pn, "a"@), 0));
    lemma_first_found(occurrences(pn, "a"@), 0);
    assert(is_first(occurrences(pn, "b"@), 1));
    lemma_first_found(occurrences(pn, "b"@), 1);
    assert forall|k: int| 0 <= k < unknown.len() implies !unknown[k] by {
        assert(args[k].0 == "a"@ || args[k].0 == "b"@);
    }
    lemma_first_absent(unknown);
}

/// For every pair of numbers whose sum and difference both fit, invoking
/// `Add` and `Sub` on the pair returns the decimal texts of the sum and of
/// the difference, and the two numbers that these texts denote add up to
/// twice the first number.
pub proof fn lemma_add_sub_twice(args: Seq<(Seq<char>, ValueView)>, a: int, b: int)
    requires
        value_of(args, "a"@) == Some(ValueView::Number(a)),
        value_of(args, "b"@) == Some(ValueView::Number(b)),
        forall|k: int| 0 <= k < args.len() ==> (#[trigger] args[k]).0 == "a"@ || args[k].0 == "b"@,
        fits(a + b),
        fits(a - b),
    ensures
        Arithmetic::Add.compute(a, b) + Arithmetic::Sub.compute(a, b) == 2 * a,
        invoke_spec(arithmetic_view(), "Add"@, args) == Ok::<
            Seq<ContentView>,
            InvocationErrorView,
        >(seq![ContentView::Text(decimal(a + b))]),
        invoke_spec(arithmetic_view(), "Sub"@, args) == Ok::<
            Seq<ContentView>,
            InvocationErrorView,
        >(seq![ContentView::Text(decimal(a - b))]),
        decimal_value(decimal(a + b)) + decimal_value(decimal(a - b)) == 2 * a,
{
    lemma_arithmetic_registry();
    lemma_pair_is_valid(Arithmetic::Add, args, a, b);
    lemma_pair_is_valid(Arithmetic::Sub, args, a, b);
    lemma_decimal_round_trip(a + b);
    lemma_decimal_round_trip(a - b);
}

} // verus!
