//! The login form: what a portal page asks to be sent back, and the ordered
//! mapping of fields that a submission carries.

use vstd::prelude::*;
use scraper::{Html, Selector};
use crate::config::Profile;
use crate::text::opt_view;

verus! {

/// A field as a pair of name and value.
pub type FieldView = (Seq<char>, Seq<char>);

/// An `input` element as its `name` and `value` attributes.
pub type InputView = (Option<Seq<char>>, Option<Seq<char>>);

/// A form as its `action` attribute and its inputs in document order.
pub type FormView = (Option<Seq<char>>, Seq<InputView>);

/// The first form of an HTML document, as the HTML parser reads it.
pub uninterp spec fn html_first_form(html: Seq<char>) -> Option<FormView>;

/// An `input` element of a form.
pub struct FormInput {
    pub name: Option<String>,
    pub value: Option<String>,
}

/// The first form of a login page.
pub struct HtmlForm {
    pub action: Option<String>,
    pub inputs: Vec<FormInput>,
}

pub open spec fn input_view(i: FormInput) -> InputView {
    (opt_view(i.name), opt_view(i.value))
}

pub open spec fn form_view(f: HtmlForm) -> FormView {
    (opt_view(f.action), f.inputs@.map_values(|i: FormInput| input_view(i)))
}

pub open spec fn opt_form_view(f: Option<HtmlForm>) -> Option<FormView> {
    match f {
        Some(f) => Some(form_view(f)),
        None => None,
    }
}

/// Relies on scraper's `Html::parse_document` and its `form` and `input`
/// selectors: the first `form` element of the document, its `action`
/// attribute, and the `name` and `value` attributes of the `input` elements
/// inside it, in document order. Parsing depends on the text alone.
#[verifier::external_body]
fn parse_first_form(html: &str) -> (r: Option<HtmlForm>)
    ensures
        opt_form_view(r) == html_first_form(html@),
{
    let doc = Html::parse_document(html);
    let form_sel = Selector::parse("form").unwrap();
    let input_sel = Selector::parse("input").unwrap();
    let attr = |a: Option<&str>| a.map(|s| s.to_string());
    doc.select(&form_sel).next().map(|form| HtmlForm {
        action: attr(form.attr("action")),
        inputs: form.select(&input_sel).map(|i| FormInput {
            name: attr(i.attr("name")),
            value: attr(i.attr("value")),
        }).collect(),
    })
}

/// The first form of `html`.
pub fn extract_form(html: &str) -> (r: Option<HtmlForm>)
    ensures
        opt_form_view(r) == html_first_form(html@),
{
    parse_first_form(html)
}

/// The value of an optional attribute, empty when absent.
pub open spec fn or_empty(o: Option<Seq<char>>) -> Seq<char> {
    match o {
        Some(s) => s,
        None => Seq::empty(),
    }
}

/// Whether `fields` has a field called `name`.
pub open spec fn has_field(fields: Seq<FieldView>, name: Seq<char>) -> bool {
    exists|i: int| 0 <= i < fields.len() && #[trigger] fields[i].0 == name
}

/// No two fields share a name.
pub open spec fn names_unique(fields: Seq<FieldView>) -> bool {
    forall|i: int, j: int| 0 <= i < j < fields.len() ==> #[trigger] fields[i].0 != #[trigger] fields[j].0
}

/// `fields` with `name` set to `value`: an existing field keeps its place,
/// a new one goes last.
pub open spec fn set_field(fields: Seq<FieldView>, name: Seq<char>, value: Seq<char>) -> Seq<FieldView> {
    if has_field(fields, name) {
        fields.map_values(|f: FieldView| if f.0 == name { (name, value) } else { f })
    } else {
        fields.push((name, value))
    }
}

/// The value of the field called `name`, if there is one.
pub open spec fn field_value(fields: Seq<FieldView>, name: Seq<char>) -> Option<Seq<char>> {
    if has_field(fields, name) {
        Some(fields[choose|i: int| 0 <= i < fields.len() && #[trigger] fields[i].0 == name].1)
    } else {
        None
    }
}

/// The names of the anti-forgery and session fields that are echoed back.
pub open spec fn is_token_field(name: Seq<char>) -> bool {
    name == "magic"@ || name == "4Tredir"@
}

/// `fields` after the token inputs among `inputs` were set, in order.
pub open spec fn with_inputs(fields: Seq<FieldView>, inputs: Seq<InputView>) -> Seq<FieldView>
    decreases inputs.len(),
{
    if inputs.len() == 0 {
        fields
    } else {
        let before = with_inputs(fields, inputs.drop_last());
        let name = or_empty(inputs.last().0);
        if is_token_field(name) {
            set_field(before, name, or_empty(inputs.last().1))
        } else {
            before
        }
    }
}

/// `fields` after a form was read: `submit` holds its action, then its token inputs.
pub open spec fn with_form(fields: Seq<FieldView>, form: FormView) -> Seq<FieldView> {
    with_inputs(set_field(fields, "submit"@, or_empty(form.0)), form.1)
}

/// The two fields that every submission starts from.
pub open spec fn profile_fields(username: Seq<char>, password: Seq<char>) -> Seq<FieldView> {
    seq![("username"@, username), ("password"@, password)]
}

/// An ordered mapping from field name to value.
pub struct SubmissionFields {
    entries: Vec<(String, String)>,
}

impl View for SubmissionFields {
    type V = Seq<FieldView>;

    closed spec fn view(&self) -> Seq<FieldView> {
        self.entries@.map_values(|e: (String, String)| (e.0@, e.1@))
    }
}

proof fn lemma_set_field_unique(fields: Seq<FieldView>, name: Seq<char>, value: Seq<char>)
    requires
        names_unique(fields),
    ensures
        names_unique(set_field(fields, name, value)),
        has_field(set_field(fields, name, value), name),
{
    let r = set_field(fields, name, value);
    if has_field(fields, name) {
        let i = choose|i: int| 0 <= i < fields.len() && #[trigger] fields[i].0 == name;
        assert(r[i].0 == name);
        assert forall|a: int, b: int| 0 <= a < b < r.len() implies #[trigger] r[a].0 != #[trigger] r[b].0 by {
            assert(fields[a].0 != fields[b].0);
        }
    } else {
        assert(r[fields.len() as int].0 == name);
    }
}

/// Setting a field keeps every field name that was there.
pub proof fn lemma_set_field_keeps(fields: Seq<FieldView>, name: Seq<char>, value: Seq<char>, k: Seq<char>)
    requires
        has_field(fields, k),
    ensures
        has_field(set_field(fields, name, value), k),
{
    let i = choose|i: int| 0 <= i < fields.len() && #[trigger] fields[i].0 == k;
    let r = set_field(fields, name, value);
    assert(r[i].0 == k);
}

/// Reading a form keeps every field name that was there.
pub proof fn lemma_with_form_keeps(fields: Seq<FieldView>, form: FormView, k: Seq<char>)
    requires
        has_field(fields, k),
    ensures
        has_field(with_form(fields, form), k),
{
    lemma_set_field_keeps(fields, "submit"@, or_empty(form.0), k);
    lemma_with_inputs_keeps(set_field(fields, "submit"@, or_empty(form.0)), form.1, k);
}

proof fn lemma_with_inputs_keeps(fields: Seq<FieldView>, inputs: Seq<InputView>, k: Seq<char>)
    requires
        has_field(fields, k),
    ensures
        has_field(with_inputs(fields, inputs), k),
    decreases inputs.len(),
{
    if inputs.len() > 0 {
        lemma_with_inputs_keeps(fields, inputs.drop_last(), k);
        let before = with_inputs(fields, inputs.drop_last());
        lemma_set_field_keeps(before, or_empty(inputs.last().0), or_empty(inputs.last().1), k);
    }
}

impl SubmissionFields {
    /// No two fields share a name.
    pub closed spec fn wf(&self) -> bool {
        names_unique(self@)
    }

    /// No fields at all.
    pub fn new() -> (r: SubmissionFields)
        ensures
            r.wf(),
            r@ == Seq::<FieldView>::empty(),
    {
        let r = SubmissionFields { entries: Vec::new() };
        assert(r@ =~= Seq::<FieldView>::empty());
        r
    }

    /// `username` and `password`, from the profile.
    pub fn for_profile(profile: &Profile) -> (r: SubmissionFields)
        ensures
            r.wf(),
            r@ == profile_fields(profile.username@, profile.password@),
    {
        let mut entries: Vec<(String, String)> = Vec::new();
        entries.push(("username".to_owned(), profile.username.clone()));
        entries.push(("password".to_owned(), profile.password.clone()));
        proof {
            reveal_strlit("username");
            reveal_strlit("password");
            assert("username"@[0] != "password"@[0]);
        }
        let r = SubmissionFields { entries };
        assert(r@ =~= profile_fields(profile.username@, profile.password@));
        r
    }

    /// The fields in order, each as a pair of name and value.
    pub fn entries(&self) -> (r: &Vec<(String, String)>)
        ensures
            r@.map_values(|e: (String, String)| (e.0@, e.1@)) == self@,
    {
        &self.entries
    }

    /// How many fields there are.
    pub fn len(&self) -> (r: usize)
        ensures
            r == self@.len(),
    {
        self.entries.len()
    }

    /// The index of the field called `name`, if there is one.
    fn position(&self, name: &String) -> (r: Option<usize>)
        ensures
            r is None <==> !has_field(self@, name@),
            r matches Some(i) ==> i < self@.len() && self@[i as int].0 == name@,
    {
        let n = self.entries.len();
        let mut i: usize = 0;
        while i < n
            invariant
                n == self.entries.len(),
                n == self@.len(),
                i <= n,
                forall|j: int| 0 <= j < i ==> #[trigger] self@[j].0 != name@,
            decreases n - i,
        {
            if self.entries[i].0 == *name {
                assert(self@[i as int].0 == name@);
                return Some(i);
            }
            i = i + 1;
        }
        None
    }

    /// Sets `name` to `value`; an existing field keeps its place, a new one goes last.
    pub fn insert(&mut self, name: String, value: String)
        requires
            old(self).wf(),
        ensures
            final(self).wf(),
            final(self)@ == set_field(old(self)@, name@, value@),
    {
        let ghost before = self@;
        proof {
            lemma_set_field_unique(before, name@, value@);
        }
        match self.position(&name) {
            Some(i) => {
                self.entries.set(i, (name, value));
                assert(self@ =~= set_field(before, name@, value@)) by {
                    assert forall|j: int| 0 <= j < before.len() && j != i implies before[j].0 != name@ by {
                        if j < i {
                            assert(before[j].0 != before[i as int].0);
                        } else {
                            assert(before[i as int].0 != before[j].0);
                        }
                    }
                }
            },
            None => {
                self.entries.push((name, value));
                assert(self@ =~= before.push((name@, value@)));
            },
        }
    }

    /// The value of the field called `name`, if there is one.
    pub fn get(&self, name: &str) -> (r: Option<String>)
        requires
            self.wf(),
        ensures
            opt_view(r) == field_value(self@, name@),
    {
        let key = name.to_owned();
        match self.position(&key) {
            Some(i) => {
                let v = self.entries[i].1.clone();
                let ghost c = choose|j: int| 0 <= j < self@.len() && #[trigger] self@[j].0 == name@;
                assert(c == i) by {
                    if c < i {
                        assert(self@[c].0 != self@[i as int].0);
                    } else if c > i {
                        assert(self@[i as int].0 != self@[c].0);
                    }
                }
                Some(v)
            },
            None => None,
        }
    }

    /// Sets `submit` to the form's action, then each of its token inputs, in order.
    pub fn add_form(&mut self, form: &HtmlForm)
        requires
            old(self).wf(),
        ensures
            final(self).wf(),
            final(self)@ == with_form(old(self)@, form_view(*form)),
    {
        let action = match &form.action {
            Some(a) => a.clone(),
            None => String::new(),
        };
        self.insert("submit".to_owned(), action);
        let ghost start = self@;
        let ghost inputs = form_view(*form).1;
        let n = form.inputs.len();
        let mut i: usize = 0;
        while i < n
            invariant
                n == form.inputs.len(),
                i <= n,
                inputs == form_view(*form).1,
                inputs.len() == n,
                self.wf(),
                self@ == with_inputs(start, inputs.subrange(0, i as int)),
            decreases n - i,
        {
            let input = &form.inputs[i];
            let name = match &input.name {
                Some(s) => s.clone(),
                None => String::new(),
            };
            let value = match &input.value {
                Some(s) => s.clone(),
                None => String::new(),
            };
            assert(inputs.subrange(0, i + 1).drop_last() =~= inputs.subrange(0, i as int));
            assert(inputs[i as int] == input_view(form.inputs@[i as int]));
            if is_token_name(&name) {
                self.insert(name, value);
            }
            i = i + 1;
        }
        assert(inputs.subrange(0, n as int) =~= inputs);
    }
}

/// Whether `name` is one of the token fields.
fn is_token_name(name: &String) -> (r: bool)
    ensures
        r == is_token_field(name@),
{
    *name == "magic".to_owned() || *name == "4Tredir".to_owned()
}

/// The fields that the first form of `html` asks for: `submit`, holding its
/// action, then its token inputs. `None` when the page has no form.
pub fn extract(html: &str) -> (r: Option<SubmissionFields>)
    ensures
        match html_first_form(html@) {
            Some(f) => r matches Some(fields) && fields.wf() && fields@ == with_form(Seq::empty(), f),
            None => r is None,
        },
{
    match parse_first_form(html) {
        Some(form) => {
            let mut fields = SubmissionFields::new();
            fields.add_form(&form);
            Some(fields)
        },
        None => None,
    }
}

} // verus!
