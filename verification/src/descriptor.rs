//! Tool descriptors: the static metadata of one tool.

use vstd::prelude::*;
use vstd::string::*;
use crate::search::{first_index, is_first, lemma_first_absent, lemma_first_found, occurrences};
use crate::value::ValueKind;

verus! {

/// One declared parameter of a tool.
#[derive(Debug, PartialEq, Eq)]
pub struct ParameterSpec {
    pub name: String,
    pub description: String,
    pub required: bool,
    pub kind: ValueKind,
}

/// The mathematical content of a [`ParameterSpec`].
pub struct ParameterView {
    pub name: Seq<char>,
    pub description: Seq<char>,
    pub required: bool,
    pub kind: ValueKind,
}

impl View for ParameterSpec {
    type V = ParameterView;

    open spec fn view(&self) -> ParameterView {
        ParameterView {
            name: self.name@,
            description: self.description@,
            required: self.required,
            kind: self.kind,
        }
    }
}

impl ParameterSpec {
    /// A parameter with the given name, description, kind and obligation.
    pub fn new(name: &str, description: &str, kind: ValueKind, required: bool) -> (p:
        ParameterSpec)
        ensures
            p@ == (ParameterView { name: name@, description: description@, required, kind }),
    {
        ParameterSpec {
            name: String::from_str(name),
            description: String::from_str(description),
            required,
            kind,
        }
    }

    /// A required numeric parameter.
    pub fn number(name: &str, description: &str) -> (p: ParameterSpec)
        ensures
            p@ == (ParameterView {
                name: name@,
                description: description@,
                required: true,
                kind: ValueKind::Number,
            }),
    {
        ParameterSpec::new(name, description, ValueKind::Number, true)
    }
}

impl Clone for ParameterSpec {
    fn clone(&self) -> (r: Self)
        ensures
            r@ == self@,
    {
        ParameterSpec {
            name: self.name.clone(),
            description: self.description.clone(),
            required: self.required,
            kind: self.kind,
        }
    }
}

/// The views of a run of descriptors, in order.
pub open spec fn descriptor_views(ds: Seq<ToolDescriptor>) -> Seq<DescriptorView> {
    Seq::new(ds.len(), |i: int| ds[i]@)
}

/// The views of a run of parameters, in order.
pub open spec fn parameter_views(ps: Seq<ParameterSpec>) -> Seq<ParameterView> {
    Seq::new(ps.len(), |i: int| ps[i]@)
}

/// The mathematical content of a [`ToolDescriptor`].
pub struct DescriptorView {
    pub name: Seq<char>,
    pub description: Seq<char>,
    pub parameters: Seq<ParameterView>,
}

impl DescriptorView {
    /// A descriptor's name is never empty.
    pub open spec fn wf(self) -> bool {
        self.name.len() > 0
    }

    /// The declared parameter names, in declaration order.
    pub open spec fn parameter_names(self) -> Seq<Seq<char>> {
        Seq::new(self.parameters.len(), |i: int| self.parameters[i].name)
    }
}

/// The static metadata of one tool: its name, what it does, and the
/// parameters it declares, in declaration order. Nothing changes it once it
/// is built up.
#[derive(Debug, PartialEq, Eq)]
pub struct ToolDescriptor {
    name: String,
    description: String,
    parameters: Vec<ParameterSpec>,
}

impl View for ToolDescriptor {
    type V = DescriptorView;

    closed spec fn view(&self) -> DescriptorView {
        DescriptorView {
            name: self.name@,
            description: self.description@,
            parameters: parameter_views(self.parameters@),
        }
    }
}

impl ToolDescriptor {
    #[verifier::type_invariant]
    spec fn inv(self) -> bool {
        self.name@.len() > 0
    }

    /// A descriptor without parameters. There is none with an empty name.
    pub fn new(name: &str, description: &str) -> (d: Option<ToolDescriptor>)
        ensures
            match d {
                Some(d) => d@ == (DescriptorView {
                    name: name@,
                    description: description@,
                    parameters: Seq::empty(),
                }) && d@.wf(),
                None => name@.len() == 0,
            },
    {
        if name.is_empty() {
            None
        } else {
            let d = ToolDescriptor {
                name: String::from_str(name),
                description: String::from_str(description),
                parameters: Vec::new(),
            };
            assert(d@.parameters =~= Seq::empty());
            Some(d)
        }
    }

    /// The same descriptor with one more parameter declared after the others.
    pub fn with_parameter(self, parameter: ParameterSpec) -> (d: ToolDescriptor)
        ensures
            d@ == (DescriptorView {
                parameters: self@.parameters.push(parameter@),
                ..self@
            }),
            d@.wf(),
    {
        proof {
            use_type_invariant(&self);
        }
        let ToolDescriptor { name, description, parameters } = self;
        let mut parameters = parameters;
        let ghost before = parameters@;
        parameters.push(parameter);
        let d = ToolDescriptor { name, description, parameters };
        assert(d@.parameters =~= parameter_views(before).push(parameter@));
        d
    }

    /// The tool's name.
    pub fn name(&self) -> (r: &str)
        ensures
            r@ == self@.name,
            self@.wf(),
    {
        proof {
            use_type_invariant(self);
        }
        self.name.as_str()
    }

    /// Whether the tool's name is `name`.
    pub fn is_named(&self, name: &String) -> (b: bool)
        ensures
            b == (self@.name == name@),
    {
        self.name == *name
    }

    /// Whether the tool declares a parameter called `key`.
    pub fn declares(&self, key: &str) -> (b: bool)
        ensures
            b == first_index(self@.parameter_names(), key@).is_some(),
    {
        let owned = String::from_str(key);
        let ghost flags = occurrences(self@.parameter_names(), key@);
        let mut i: usize = 0;
        while i < self.parameters.len()
            invariant
                i <= self.parameters@.len(),
                owned@ == key@,
                flags == occurrences(self@.parameter_names(), key@),
                forall|j: int| 0 <= j < i ==> !flags[j],
            decreases self.parameters@.len() - i,
        {
            if self.parameters[i].name == owned {
                proof {
                    assert(is_first(flags, i as int));
                    lemma_first_found(flags, i as int);
                }
                return true;
            }
            i += 1;
        }
        proof {
            lemma_first_absent(flags);
        }
        false
    }

    /// What the tool does.
    pub fn description(&self) -> (r: &str)
        ensures
            r@ == self@.description,
    {
        self.description.as_str()
    }

    /// The declared parameters, in declaration order.
    pub fn parameters(&self) -> (r: &Vec<ParameterSpec>)
        ensures
            parameter_views(r@) == self@.parameters,
    {
        &self.parameters
    }
}

impl Clone for ToolDescriptor {
    fn clone(&self) -> (r: Self)
        ensures
            r@ == self@,
    {
        proof {
            use_type_invariant(self);
        }
        let mut parameters: Vec<ParameterSpec> = Vec::new();
        let mut i: usize = 0;
        while i < self.parameters.len()
            invariant
                i <= self.parameters@.len(),
                parameters@.len() == i,
                forall|j: int| 0 <= j < i ==> parameters@[j]@ == self.parameters@[j]@,
            decreases self.parameters@.len() - i,
        {
            parameters.push(self.parameters[i].clone());
            i += 1;
        }
        let r = ToolDescriptor {
            name: self.name.clone(),
            description: self.description.clone(),
            parameters,
        };
        assert(r@.parameters =~= self@.parameters);
        r
    }
}

} // verus!
