//! How an endpoint describes itself: the verbs that it answers, the scopes that it
//! requires, the inputs that it takes and the types that it serves.
use crate::text::texts_of;
use vstd::prelude::*;

verus! {

/// The XSD datatype that every scalar input here carries. Paths (`dir`, `root`, `path`), an
/// `owner/name` slug, a face selector, a state word, a tool name: all strings on the wire.
/// `args` is the one list-valued input, a newline-separated argument vector, and it is
/// declared as the string that the wire carries.
pub const XSD_STRING: &'static str = "http://www.w3.org/2001/XMLSchema#string";

/// The XSD datatype of the counted inputs (`pr`, `limit`).
pub const XSD_INTEGER: &'static str = "http://www.w3.org/2001/XMLSchema#integer";

/// What is asked of a resource.
#[derive(Clone, Copy, Debug, PartialEq, Eq, Structural)]
pub enum Verb {
    /// Read the resource's representation.
    Source,
    /// Read the resource's self-description.
    Meta,
}

/// One named input that an endpoint takes.
#[derive(Debug, PartialEq, Eq)]
pub struct ArgSpec {
    /// The argument's name.
    pub name: String,
    /// What it is for.
    pub summary: String,
    /// Whether it must be given.
    pub required: bool,
    /// The datatype of its value, as an IRI.
    pub class: Option<String>,
    /// The value that counts when it is not given.
    pub default: Option<String>,
    /// The values that it may have; none listed means any.
    pub one_of: Vec<String>,
}

/// An [`ArgSpec`] as plain text.
#[verifier::ext_equal]
pub struct ArgSpecView {
    pub name: Seq<char>,
    pub summary: Seq<char>,
    pub required: bool,
    pub class: Option<Seq<char>>,
    pub default: Option<Seq<char>>,
    pub one_of: Seq<Seq<char>>,
}

impl DeepView for ArgSpec {
    type V = ArgSpecView;

    open spec fn deep_view(&self) -> ArgSpecView {
        ArgSpecView {
            name: self.name@,
            summary: self.summary@,
            required: self.required,
            class: self.class.deep_view(),
            default: self.default.deep_view(),
            one_of: self.one_of.deep_view(),
        }
    }
}

/// An input of a datatype that must be given.
pub open spec fn required_input(
    name: Seq<char>,
    class: Seq<char>,
    summary: Seq<char>,
) -> ArgSpecView {
    ArgSpecView {
        name,
        summary,
        required: true,
        class: Some(class),
        default: None,
        one_of: Seq::empty(),
    }
}

/// An input of a datatype that may be left out.
pub open spec fn optional_input(
    name: Seq<char>,
    class: Seq<char>,
    summary: Seq<char>,
) -> ArgSpecView {
    ArgSpecView { required: false, ..required_input(name, class, summary) }
}

/// An input of a datatype that has a value when it is left out.
pub open spec fn defaulted_input(
    name: Seq<char>,
    class: Seq<char>,
    summary: Seq<char>,
    default: Seq<char>,
) -> ArgSpecView {
    ArgSpecView { default: Some(default), ..optional_input(name, class, summary) }
}

impl ArgSpecView {
    /// The same input with its values listed.
    pub open spec fn one_of(self, values: Seq<Seq<char>>) -> ArgSpecView {
        ArgSpecView { one_of: values, ..self }
    }
}

impl ArgSpec {
    /// A required argument with the given name.
    pub fn new(name: &str) -> (arg: ArgSpec)
        ensures
            arg.deep_view() == (ArgSpecView {
                name: name@,
                summary: Seq::empty(),
                required: true,
                class: None,
                default: None,
                one_of: Seq::empty(),
            }),
    {
        let arg = ArgSpec {
            name: name.to_string(),
            summary: String::new(),
            required: true,
            class: None,
            default: None,
            one_of: Vec::new(),
        };
        assert(arg.deep_view().one_of =~= Seq::empty());
        arg
    }

    /// Say what the argument is for.
    pub fn summary(self, summary: &str) -> (arg: ArgSpec)
        ensures
            arg.deep_view() == (ArgSpecView { summary: summary@, ..self.deep_view() }),
    {
        ArgSpec { summary: summary.to_string(), ..self }
    }

    /// Declare the datatype of the argument's value.
    pub fn class(self, class: &str) -> (arg: ArgSpec)
        ensures
            arg.deep_view() == (ArgSpecView { class: Some(class@), ..self.deep_view() }),
    {
        ArgSpec { class: Some(class.to_string()), ..self }
    }

    /// Declare that the argument may be left out.
    pub fn optional(self) -> (arg: ArgSpec)
        ensures
            arg.deep_view() == (ArgSpecView { required: false, ..self.deep_view() }),
    {
        ArgSpec { required: false, ..self }
    }

    /// Declare the value that counts when the argument is left out, which it then may be.
    pub fn default_value(self, value: &str) -> (arg: ArgSpec)
        ensures
            arg.deep_view() == (ArgSpecView {
                default: Some(value@),
                required: false,
                ..self.deep_view()
            }),
    {
        ArgSpec { default: Some(value.to_string()), required: false, ..self }
    }

    /// Declare the values that the argument may have.
    pub fn one_of(self, values: &[&str]) -> (arg: ArgSpec)
        ensures
            arg.deep_view() == self.deep_view().one_of(values.deep_view()),
    {
        ArgSpec { one_of: texts_of(values), ..self }
    }
}

/// An endpoint's self-description.
#[derive(Debug, PartialEq, Eq)]
pub struct Description {
    /// The endpoint's identifier.
    pub id: String,
    /// A short title.
    pub title: String,
    /// A longer summary.
    pub summary: String,
    /// The verbs that it answers.
    pub verbs: Vec<Verb>,
    /// The inputs that it takes.
    pub inputs: Vec<ArgSpec>,
    /// The types that it serves.
    pub outputs: Vec<String>,
    /// The capability scopes that calling it requires.
    pub requires: Vec<String>,
}

/// A [`Description`] as plain text.
#[verifier::ext_equal]
pub struct DescriptionView {
    pub id: Seq<char>,
    pub title: Seq<char>,
    pub summary: Seq<char>,
    pub verbs: Seq<Verb>,
    pub inputs: Seq<ArgSpecView>,
    pub outputs: Seq<Seq<char>>,
    pub requires: Seq<Seq<char>>,
}

impl DeepView for Description {
    type V = DescriptionView;

    open spec fn deep_view(&self) -> DescriptionView {
        DescriptionView {
            id: self.id@,
            title: self.title@,
            summary: self.summary@,
            verbs: self.verbs@,
            inputs: self.inputs.deep_view(),
            outputs: self.outputs.deep_view(),
            requires: self.requires.deep_view(),
        }
    }
}

impl Description {
    /// A description of the endpoint with the given identifier.
    pub fn new(id: &str) -> (description: Description)
        ensures
            description.deep_view() == (DescriptionView {
                id: id@,
                title: Seq::empty(),
                summary: Seq::empty(),
                verbs: Seq::empty(),
                inputs: Seq::empty(),
                outputs: Seq::empty(),
                requires: Seq::empty(),
            }),
    {
        let description = Description {
            id: id.to_string(),
            title: String::new(),
            summary: String::new(),
            verbs: Vec::new(),
            inputs: Vec::new(),
            outputs: Vec::new(),
            requires: Vec::new(),
        };
        assert(description.deep_view().inputs =~= Seq::empty());
        assert(description.deep_view().outputs =~= Seq::empty());
        assert(description.deep_view().requires =~= Seq::empty());
        description
    }

    /// Set the title.
    pub fn title(self, title: &str) -> (description: Description)
        ensures
            description.deep_view() == (DescriptionView { title: title@, ..self.deep_view() }),
    {
        Description { title: title.to_string(), ..self }
    }

    /// Set the summary.
    pub fn summary(self, summary: &str) -> (description: Description)
        ensures
            description.deep_view() == (DescriptionView {
                summary: summary@,
                ..self.deep_view()
            }),
    {
        Description { summary: summary.to_string(), ..self }
    }

    /// Declare a verb.
    pub fn verb(self, verb: Verb) -> (description: Description)
        ensures
            description.deep_view() == (DescriptionView {
                verbs: self.deep_view().verbs.push(verb),
                ..self.deep_view()
            }),
    {
        let mut verbs = self.verbs;
        verbs.push(verb);
        Description { verbs, ..self }
    }

    /// Declare an input.
    pub fn input(self, input: ArgSpec) -> (description: Description)
        ensures
            description.deep_view() == (DescriptionView {
                inputs: self.deep_view().inputs.push(input.deep_view()),
                ..self.deep_view()
            }),
    {
        let mut inputs = self.inputs;
        let ghost before = inputs.deep_view();
        inputs.push(input);
        assert(inputs.deep_view() =~= before.push(input.deep_view()));
        Description { inputs, ..self }
    }

    /// Declare a type that is served.
    pub fn output(self, output: &str) -> (description: Description)
        ensures
            description.deep_view() == (DescriptionView {
                outputs: self.deep_view().outputs.push(output@),
                ..self.deep_view()
            }),
    {
        let mut outputs = self.outputs;
        let ghost before = outputs.deep_view();
        outputs.push(output.to_string());
        assert(outputs.deep_view() =~= before.push(output@));
        Description { outputs, ..self }
    }

    /// Declare a capability scope that calling the endpoint requires.
    pub fn requiring(self, scope: &str) -> (description: Description)
        ensures
            description.deep_view() == (DescriptionView {
                requires: self.deep_view().requires.push(scope@),
                ..self.deep_view()
            }),
    {
        let mut scopes = self.requires;
        let ghost before = scopes.deep_view();
        scopes.push(scope.to_string());
        assert(scopes.deep_view() =~= before.push(scope@));
        Description { requires: scopes, ..self }
    }
}

} // verus!
