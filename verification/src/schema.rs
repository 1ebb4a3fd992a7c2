//! Wire-format schemas of tools, and their construction from field
//! declarations.
//!
//! A tool is offered to the remote model as a `function` entry carrying a
//! name, a description, and an object schema of named properties. A property
//! that declares an enumerated set of allowed values is implicitly excluded
//! from the schema's `required` list; every other property is required.

use vstd::prelude::*;

verus! {

/// One property of a tool's parameter object schema.
#[derive(Clone, Debug, PartialEq)]
pub struct Property {
    pub ty: String,
    pub choices: Option<Vec<String>>,
    pub description: String,
}

/// The mathematical value of a [`Property`].
#[verifier::ext_equal]
pub struct PropertyV {
    pub ty: Seq<char>,
    pub choices: Option<Seq<Seq<char>>>,
    pub description: Seq<char>,
}

impl View for Property {
    type V = PropertyV;

    open spec fn view(&self) -> PropertyV {
        PropertyV {
            ty: self.ty@,
            choices: match self.choices {
                Option::None => Option::None,
                Option::Some(cs) => Option::Some(cs.deep_view()),
            },
            description: self.description@,
        }
    }
}

impl DeepView for Property {
    type V = PropertyV;

    open spec fn deep_view(&self) -> PropertyV {
        self.view()
    }
}

impl PropertyV {
    /// Whether the property carries a non-empty enumerated list of allowed
    /// values, which exempts it from the `required` list.
    pub open spec fn has_choices(self) -> bool {
        self.choices matches Option::Some(cs) && cs.len() > 0
    }
}

/// The parameter object schema of one tool: a typed property per field and
/// the list of required property names.
#[derive(Clone, Debug, PartialEq)]
pub struct Parameters {
    pub ty: String,
    pub properties: Vec<(String, Property)>,
    pub required: Vec<String>,
}

/// The mathematical value of a [`Parameters`].
#[verifier::ext_equal]
pub struct ParametersV {
    pub ty: Seq<char>,
    pub properties: Seq<(Seq<char>, PropertyV)>,
    pub required: Seq<Seq<char>>,
}

impl View for Parameters {
    type V = ParametersV;

    open spec fn view(&self) -> ParametersV {
        ParametersV {
            ty: self.ty@,
            properties: self.properties@.map_values(|p: (String, Property)| (p.0@, p.1@)),
            required: self.required.deep_view(),
        }
    }
}

impl DeepView for Parameters {
    type V = ParametersV;

    open spec fn deep_view(&self) -> ParametersV {
        self.view()
    }
}

/// A tool as offered on the wire: today only `function` tools exist.
#[derive(Clone, Debug, PartialEq)]
pub enum ToolImpl {
    Function { name: String, description: String, parameters: Parameters },
}

/// The mathematical value of a [`ToolImpl`].
#[verifier::ext_equal]
pub struct ToolV {
    pub name: Seq<char>,
    pub description: Seq<char>,
    pub parameters: ParametersV,
}

impl View for ToolImpl {
    type V = ToolV;

    open spec fn view(&self) -> ToolV {
        match *self {
            ToolImpl::Function { name, description, parameters } => ToolV {
                name: name@,
                description: description@,
                parameters: parameters@,
            },
        }
    }
}

impl DeepView for ToolImpl {
    type V = ToolV;

    open spec fn deep_view(&self) -> ToolV {
        self.view()
    }
}

impl ToolV {
    /// Property names are unique within a schema.
    pub open spec fn wf(self) -> bool {
        forall|i: int, j: int|
            0 <= i < j < self.parameters.properties.len() ==> self.parameters.properties[i].0
                != self.parameters.properties[j].0
    }
}

impl Property {
    /// An exact duplicate of the property.
    pub fn duplicate(&self) -> (r: Property)
        ensures
            r@ == self@,
    {
        let choices = match &self.choices {
            Option::None => Option::None,
            Option::Some(cs) => Option::Some(duplicate_strings(cs)),
        };
        let r = Property { ty: self.ty.clone(), choices, description: self.description.clone() };
        assert(r@.choices == self@.choices);
        r
    }
}

impl Parameters {
    /// An exact duplicate of the parameter schema.
    pub fn duplicate(&self) -> (r: Parameters)
        ensures
            r@ == self@,
    {
        let mut properties: Vec<(String, Property)> = Vec::new();
        let mut i: usize = 0;
        while i < self.properties.len()
            invariant
                i <= self.properties.len(),
                properties@.len() == i,
                forall|k: int|
                    0 <= k < i ==> (#[trigger] properties@[k]).0@ == self.properties@[k].0@
                        && properties@[k].1@ == self.properties@[k].1@,
            decreases self.properties.len() - i,
        {
            let pair = &self.properties[i];
            properties.push((pair.0.clone(), pair.1.duplicate()));
            i = i + 1;
        }
        let r = Parameters {
            ty: self.ty.clone(),
            properties,
            required: duplicate_strings(&self.required),
        };
        proof {
            assert(r@.properties =~= self@.properties);
            assert(r@ =~~= self@);
        }
        r
    }
}

impl ToolImpl {
    /// The stable name under which the tool is offered and dispatched.
    pub fn key(&self) -> (r: &String)
        ensures
            r@ == self@.name,
    {
        match self {
            ToolImpl::Function { name, .. } => name,
        }
    }

    /// An exact duplicate of the tool schema.
    pub fn duplicate(&self) -> (r: ToolImpl)
        ensures
            r@ == self@,
    {
        match self {
            ToolImpl::Function { name, description, parameters } => ToolImpl::Function {
                name: name.clone(),
                description: description.clone(),
                parameters: parameters.duplicate(),
            },
        }
    }
}

/// The object type tag of every parameter schema.
pub fn default_type() -> (r: String)
    ensures
        r@ == "object"@,
{
    let r = "object".to_owned();
    r
}

/// The declaration of one tool field: its name, wire type, description, and
/// (possibly empty) enumerated list of allowed values.
#[derive(Clone, Debug, PartialEq)]
pub struct FieldDecl {
    pub name: String,
    pub ty: String,
    pub description: String,
    pub choices: Vec<String>,
}

/// The mathematical value of a [`FieldDecl`].
#[verifier::ext_equal]
pub struct FieldDeclV {
    pub name: Seq<char>,
    pub ty: Seq<char>,
    pub description: Seq<char>,
    pub choices: Seq<Seq<char>>,
}

impl View for FieldDecl {
    type V = FieldDeclV;

    open spec fn view(&self) -> FieldDeclV {
        FieldDeclV {
            name: self.name@,
            ty: self.ty@,
            description: self.description@,
            choices: self.choices.deep_view(),
        }
    }
}

impl DeepView for FieldDecl {
    type V = FieldDeclV;

    open spec fn deep_view(&self) -> FieldDeclV {
        self.view()
    }
}

/// The property a field declaration turns into: an empty choice list means
/// no enumeration at all on the wire.
pub open spec fn property_of_field(f: FieldDeclV) -> PropertyV {
    PropertyV {
        ty: f.ty,
        choices: if f.choices.len() == 0 {
            Option::None
        } else {
            Option::Some(f.choices)
        },
        description: f.description,
    }
}

/// The property list a sequence of field declarations turns into, in
/// declaration order.
pub open spec fn properties_of_fields(fields: Seq<FieldDeclV>) -> Seq<(Seq<char>, PropertyV)> {
    fields.map_values(|f: FieldDeclV| (f.name, property_of_field(f)))
}

/// The names of the required fields, in declaration order: exactly those
/// fields that declare no choices.
pub open spec fn required_of_fields(fields: Seq<FieldDeclV>) -> Seq<Seq<char>>
    decreases fields.len(),
{
    if fields.len() == 0 {
        Seq::empty()
    } else if fields.last().choices.len() == 0 {
        required_of_fields(fields.drop_last()).push(fields.last().name)
    } else {
        required_of_fields(fields.drop_last())
    }
}

/// Field names are unique within a declaration list.
pub open spec fn distinct_field_names(fields: Seq<FieldDeclV>) -> bool {
    forall|i: int, j: int| 0 <= i < j < fields.len() ==> fields[i].name != fields[j].name
}

/// Whether the field declarations carry pairwise distinct names.
pub fn check_distinct_field_names(fields: &Vec<FieldDecl>) -> (r: bool)
    ensures
        r == distinct_field_names(fields.deep_view()),
{
    let ghost fv = fields.deep_view();
    let mut i: usize = 0;
    while i < fields.len()
        invariant
            i <= fields.len(),
            fv == fields.deep_view(),
            fv.len() == fields.len(),
            forall|a: int, b: int| 0 <= a < b < i ==> fv[a].name != fv[b].name,
        decreases fields.len() - i,
    {
        let mut j: usize = 0;
        while j < i
            invariant
                j <= i < fields.len(),
                fv == fields.deep_view(),
                fv.len() == fields.len(),
                forall|b: int| 0 <= b < j ==> fv[b].name != fv[i as int].name,
            decreases i - j,
        {
            if fields[j].name == fields[i].name {
                assert(fv[j as int].name == fv[i as int].name);
                return false;
            }
            j = j + 1;
        }
        i = i + 1;
    }
    true
}

/// An exact duplicate of a list of strings.
pub(crate) fn duplicate_strings(v: &Vec<String>) -> (r: Vec<String>)
    ensures
        r@ == v@,
        r.deep_view() == v.deep_view(),
{
    let mut out: Vec<String> = Vec::new();
    let mut i: usize = 0;
    while i < v.len()
        invariant
            i <= v.len(),
            out@ =~= v@.take(i as int),
        decreases v.len() - i,
    {
        out.push(v[i].clone());
        i = i + 1;
    }
    assert(out@ =~= v@);
    assert(out.deep_view() =~= v.deep_view());
    out
}

/// Builds the wire-format schema of one tool from its declared fields, as
/// the registry offers it to the remote model: every field becomes a typed
/// property, and exactly the fields without choices become required.
pub fn function_tool(name: String, description: String, fields: &Vec<FieldDecl>) -> (t: ToolImpl)
    requires
        distinct_field_names(fields.deep_view()),
    ensures
        t@.name == name@,
        t@.description == description@,
        t@.parameters.ty == "object"@,
        t@.parameters.properties == properties_of_fields(fields.deep_view()),
        t@.parameters.required == required_of_fields(fields.deep_view()),
        t@.wf(),
{
    let ghost fv = fields.deep_view();
    let mut properties: Vec<(String, Property)> = Vec::new();
    let mut required: Vec<String> = Vec::new();
    let mut i: usize = 0;
    while i < fields.len()
        invariant
            i <= fields.len(),
            fv == fields.deep_view(),
            fv.len() == fields.len(),
            properties@.len() == i,
            forall|k: int|
                0 <= k < i ==> (#[trigger] properties@[k]).0@ == fv[k].name && properties@[k].1@
                    == property_of_field(fv[k]),
            required.deep_view() =~~= required_of_fields(fv.take(i as int)),
        decreases fields.len() - i,
    {
        let f = &fields[i];
        if f.choices.len() == 0 {
            required.push(f.name.clone());
        }
        let prop = Property {
            ty: f.ty.clone(),
            choices: if f.choices.len() == 0 {
                Option::None
            } else {
                Option::Some(duplicate_strings(&f.choices))
            },
            description: f.description.clone(),
        };
        proof {
            assert(fv[i as int] == f.deep_view());
            assert(prop@.choices == property_of_field(fv[i as int]).choices);
            assert(prop@ =~~= property_of_field(fv[i as int]));
        }
        properties.push((f.name.clone(), prop));
        proof {
            assert(fv.take(i + 1).drop_last() =~= fv.take(i as int));
            assert(fv.take(i + 1).last() == fv[i as int]);
        }
        i = i + 1;
    }
    proof {
        assert(fv.take(fields@.len() as int) =~= fv);
        assert(properties@.map_values(|p: (String, Property)| (p.0@, p.1@)) =~=
            properties_of_fields(fv));
    }
    let t = ToolImpl::Function {
        name,
        description,
        parameters: Parameters { ty: default_type(), properties, required },
    };
    proof {
        assert(properties_of_fields(fv).len() == fv.len());
        assert(forall|a: int, b: int|
            0 <= a < b < fv.len() ==> properties_of_fields(fv)[a].0 != properties_of_fields(
                fv,
            )[b].0);
    }
    t
}

/// No field with a non-empty choices list is ever required.
///
/// Law: the `required` list a declaration list turns into excludes every
/// field that declares choices.
pub proof fn lemma_choices_never_required(fields: Seq<FieldDeclV>, i: int)
    requires
        0 <= i < fields.len(),
        fields[i].choices.len() > 0,
        distinct_field_names(fields),
    ensures
        !required_of_fields(fields).contains(fields[i].name),
    decreases fields.len(),
{
    if fields.len() > 0 {
        let prefix = fields.drop_last();
        assert(distinct_field_names(prefix));
        if i == fields.len() - 1 {
            lemma_required_subset_of_fields(fields);
        } else {
            lemma_choices_never_required(prefix, i);
            if fields.last().choices.len() == 0 {
                assert(fields.last().name != fields[i].name);
            }
        }
    }
}

/// Every required name is the name of some declared field without choices.
pub proof fn lemma_required_subset_of_fields(fields: Seq<FieldDeclV>)
    ensures
        forall|n: Seq<char>|
            required_of_fields(fields).contains(n) ==> exists|j: int|
                0 <= j < fields.len() && fields[j].name == n && fields[j].choices.len() == 0,
    decreases fields.len(),
{
    if fields.len() > 0 {
        lemma_required_subset_of_fields(fields.drop_last());
        assert forall|n: Seq<char>| required_of_fields(fields).contains(n) implies exists|j: int|
            0 <= j < fields.len() && fields[j].name == n && fields[j].choices.len() == 0 by {
            if required_of_fields(fields.drop_last()).contains(n) {
                let j = choose|j: int|
                    0 <= j < fields.drop_last().len() && fields.drop_last()[j].name == n
                        && fields.drop_last()[j].choices.len() == 0;
                assert(fields[j].name == n && fields[j].choices.len() == 0);
            } else {
                assert(fields.last().choices.len() == 0 && fields.last().name == n);
                assert(fields[fields.len() - 1].name == n);
            }
        }
    }
}

} // verus!
