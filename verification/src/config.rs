//! Configuration data of the bridge.
//!
//! Two groups of settings are held here: the broker settings (address,
//! topology names, worker count) and the provider settings (API key,
//! sender identity, and the template table).  The template table is the
//! bridge's registry: a read-only mapping from template name to the
//! provider's template id and the list of fields a job message must
//! supply.  Loading the table rejects duplicate template names as a
//! fatal configuration error rather than keeping the last entry.
//!
//! Reading and parsing the configuration file is I/O and stays with the
//! program around the library; it hands the parsed entries to
//! [`SendGrid::from_entries`].

use vstd::prelude::*;
use crate::text::str_eq;

verus! {

/// Ghost image of one email template: the provider's template id and
/// the declared required fields.  An absent field list means "no
/// required fields", not "inherit defaults".
pub ghost struct TemplateView {
    pub template_id: Seq<char>,
    pub required_fields: Option<Seq<Seq<char>>>,
}

impl TemplateView {
    /// The fields a payload for this template must supply, in table
    /// order; an absent list contributes none.
    pub open spec fn required_list(self) -> Seq<Seq<char>> {
        match self.required_fields {
            Some(l) => l,
            None => Seq::empty(),
        }
    }

    /// The required fields as a set: their order in the table is
    /// irrelevant to validation.
    pub open spec fn required_set(self) -> Set<Seq<char>> {
        self.required_list().to_set()
    }
}

/// One email template: the provider's template id plus the fields a
/// job message for it must supply.
#[derive(Debug)]
pub struct EmailTemplate {
    pub template_id: String,
    pub required_fields: Option<Vec<String>>,
}

impl View for EmailTemplate {
    type V = TemplateView;

    open spec fn view(&self) -> TemplateView {
        TemplateView {
            template_id: self.template_id@,
            required_fields: match self.required_fields {
                Some(v) => Some(v.deep_view()),
                None => None,
            },
        }
    }
}

impl EmailTemplate {
    /// An equal copy of this template.
    pub fn duplicate(&self) -> (r: EmailTemplate)
        ensures
            r@ == self@,
    {
        let required_fields = match &self.required_fields {
            Some(v) => Some(clone_string_vec(v)),
            None => None,
        };
        let r = EmailTemplate { template_id: self.template_id.clone(), required_fields };
        proof {
            assert(r@.required_fields == self@.required_fields);
        }
        r
    }
}

/// An equal copy of a vector of strings.
pub fn clone_string_vec(v: &Vec<String>) -> (r: Vec<String>)
    ensures
        r.deep_view() == v.deep_view(),
{
    let mut r: Vec<String> = Vec::new();
    let mut i: usize = 0;
    while i < v.len()
        invariant
            i <= v.len(),
            r@.len() == i as int,
            forall|k: int| 0 <= k < i ==> r@[k]@ == v@[k]@,
        decreases v.len() - i,
    {
        r.push(v[i].clone());
        i = i + 1;
    }
    proof {
        assert(r.deep_view() =~= v.deep_view());
    }
    r
}

/// First template of the given name in the table, if any.
pub open spec fn lookup_templates(
    entries: Seq<(Seq<char>, TemplateView)>,
    name: Seq<char>,
) -> Option<TemplateView>
    decreases entries.len(),
{
    if entries.len() <= 0 {
        None
    } else if entries[0].0 == name {
        Some(entries[0].1)
    } else {
        lookup_templates(entries.drop_first(), name)
    }
}

/// A name that matches no entry is never found.
pub proof fn lemma_lookup_absent(entries: Seq<(Seq<char>, TemplateView)>, name: Seq<char>)
    requires
        forall|k: int| 0 <= k < entries.len() ==> entries[k].0 != name,
    ensures
        lookup_templates(entries, name) is None,
    decreases entries.len(),
{
    if entries.len() > 0 {
        lemma_lookup_absent(entries.drop_first(), name);
    }
}

/// A first match at position `i` is what the lookup returns.
pub proof fn lemma_lookup_found(
    entries: Seq<(Seq<char>, TemplateView)>,
    name: Seq<char>,
    i: int,
)
    requires
        0 <= i < entries.len(),
        entries[i].0 == name,
        forall|k: int| 0 <= k < i ==> entries[k].0 != name,
    ensures
        lookup_templates(entries, name) == Some(entries[i].1),
    decreases i,
{
    if i > 0 {
        lemma_lookup_found(entries.drop_first(), name, i - 1);
    }
}

/// Ghost image of the provider settings and the template registry.
pub ghost struct SendGridView {
    pub api_key: Seq<char>,
    pub sender_name: Seq<char>,
    pub sender_email: Seq<char>,
    pub email_templates: Seq<(Seq<char>, TemplateView)>,
}

impl SendGridView {
    /// The template names, in table order.
    pub open spec fn template_names(self) -> Seq<Seq<char>> {
        self.email_templates.map(|i: int, e: (Seq<char>, TemplateView)| e.0)
    }

    /// No two entries share a name.
    pub open spec fn names_unique(self) -> bool {
        forall|p: int, q: int|
            0 <= p < q < self.email_templates.len()
                ==> self.email_templates[p].0 != self.email_templates[q].0
    }

    /// The template of the given name, if the table holds one.
    pub open spec fn lookup(self, name: Seq<char>) -> Option<TemplateView> {
        lookup_templates(self.email_templates, name)
    }

    /// Whether the table holds a template of the given name.
    pub open spec fn has_template(self, name: Seq<char>) -> bool {
        self.lookup(name) is Some
    }

    /// The required fields of the named template, as a set; meaningful
    /// only when the template exists.
    pub open spec fn required_set_of(self, name: Seq<char>) -> Set<Seq<char>> {
        self.lookup(name)->Some_0.required_set()
    }
}

/// Provider settings: API key, sender identity, and the template
/// registry keyed by template name.
#[derive(Debug)]
pub struct SendGrid {
    pub api_key: String,
    pub sender_name: String,
    pub sender_email: String,
    pub email_templates: Vec<(String, EmailTemplate)>,
}

impl View for SendGrid {
    type V = SendGridView;

    open spec fn view(&self) -> SendGridView {
        SendGridView {
            api_key: self.api_key@,
            sender_name: self.sender_name@,
            sender_email: self.sender_email@,
            email_templates: self.email_templates@.map(
                |i: int, e: (String, EmailTemplate)| (e.0@, e.1@),
            ),
        }
    }
}

/// A template name that occurs twice in the configured table.
#[derive(Debug)]
pub struct DuplicateTemplate {
    pub name: String,
}

/// A template name that the registry does not hold.
#[derive(Debug)]
pub struct UnknownTemplate {
    pub template: String,
}

impl SendGrid {
    /// Builds the registry from configured entries.  Duplicate template
    /// names are a fatal configuration error: the table is rejected,
    /// never collapsed to its last entry.
    pub fn from_entries(
        api_key: String,
        sender_name: String,
        sender_email: String,
        email_templates: Vec<(String, EmailTemplate)>,
    ) -> (r: Result<SendGrid, DuplicateTemplate>)
        ensures
            r is Ok <==> (forall|p: int, q: int|
                0 <= p < q < email_templates.len()
                    ==> email_templates[p].0@ != email_templates[q].0@),
            r is Ok ==> {
                let cfg = r->Ok_0;
                &&& cfg@.api_key == api_key@
                &&& cfg@.sender_name == sender_name@
                &&& cfg@.sender_email == sender_email@
                &&& cfg@.email_templates == email_templates@.map(
                    |i: int, e: (String, EmailTemplate)| (e.0@, e.1@),
                )
                &&& cfg@.names_unique()
            },
            r is Err ==> exists|p: int, q: int|
                0 <= p < q < email_templates.len()
                    && email_templates[p].0@ == email_templates[q].0@
                    && email_templates[p].0@ == r->Err_0.name@,
    {
        let n = email_templates.len();
        let mut i: usize = 1;
        while i < n
            invariant
                n == email_templates.len(),
                1 <= i,
                forall|p: int, q: int|
                    0 <= p < q < i ==> email_templates[p].0@ != email_templates[q].0@,
            decreases n - i,
        {
            let mut j: usize = 0;
            while j < i
                invariant
                    i < n,
                    n == email_templates.len(),
                    j <= i,
                    forall|q: int| 0 <= q < j ==> email_templates[q].0@ != email_templates[i as int].0@,
                decreases i - j,
            {
                if str_eq_strings(&email_templates[j].0, &email_templates[i].0) {
                    return Err(DuplicateTemplate { name: email_templates[i].0.clone() });
                }
                j = j + 1;
            }
            i = i + 1;
        }
        let cfg = SendGrid { api_key, sender_name, sender_email, email_templates };
        Ok(cfg)
    }

    /// Index of the named template in the table, or `None` if the name
    /// is unknown.
    fn find_template(&self, template: &str) -> (r: Option<usize>)
        ensures
            r is Some ==> {
                let i = r->Some_0 as int;
                &&& 0 <= i < self@.email_templates.len()
                &&& self@.email_templates[i].0 == template@
                &&& self@.lookup(template@) == Some(self@.email_templates[i].1)
            },
            r is Some <==> self@.has_template(template@),
    {
        let owned: String = template.to_owned();
        let n = self.email_templates.len();
        let mut i: usize = 0;
        while i < n
            invariant
                n == self.email_templates.len(),
                i <= n,
                owned@ == template@,
                forall|k: int| 0 <= k < i ==> self@.email_templates[k].0 != template@,
            decreases n - i,
        {
            if self.email_templates[i].0 == owned {
                proof {
                    lemma_lookup_found(self@.email_templates, template@, i as int);
                }
                return Some(i);
            }
            i = i + 1;
        }
        proof {
            lemma_lookup_absent(self@.email_templates, template@);
        }
        None
    }

    /// The required fields for the named email template, in table
    /// order.  Returns the unknown name when the registry does not hold
    /// the template.
    pub fn required_fields_for_email(&self, template: &str) -> (r: Result<
        Vec<String>,
        UnknownTemplate,
    >)
        ensures
            r is Ok <==> self@.has_template(template@),
            r is Ok ==> r->Ok_0.deep_view() == self@.lookup(template@)->Some_0.required_list(),
            r is Err ==> r->Err_0.template@ == template@,
    {
        match self.find_template(template) {
            Some(i) => match &self.email_templates[i].1.required_fields {
                Some(v) => Ok(clone_string_vec(v)),
                None => {
                    let empty: Vec<String> = Vec::new();
                    proof {
                        assert(empty.deep_view() =~= Seq::<Seq<char>>::empty());
                    }
                    Ok(empty)
                },
            },
            None => Err(UnknownTemplate { template: template.to_owned() }),
        }
    }

    /// The provider's template id for the named email template.
    /// Returns the unknown name when the registry does not hold the
    /// template.
    pub fn template_id(&self, template: &str) -> (r: Result<String, UnknownTemplate>)
        ensures
            r is Ok <==> self@.has_template(template@),
            r is Ok ==> r->Ok_0@ == self@.lookup(template@)->Some_0.template_id,
            r is Err ==> r->Err_0.template@ == template@,
    {
        match self.find_template(template) {
            Some(i) => Ok(self.email_templates[i].1.template_id.clone()),
            None => Err(UnknownTemplate { template: template.to_owned() }),
        }
    }

    /// An equal copy of these settings.
    pub fn duplicate(&self) -> (r: SendGrid)
        ensures
            r@ == self@,
    {
        let mut email_templates: Vec<(String, EmailTemplate)> = Vec::new();
        let n = self.email_templates.len();
        let mut i: usize = 0;
        while i < n
            invariant
                n == self.email_templates.len(),
                i <= n,
                email_templates@.len() == i as int,
                forall|k: int|
                    0 <= k < i ==> email_templates@[k].0@ == self.email_templates@[k].0@
                        && email_templates@[k].1@ == self.email_templates@[k].1@,
            decreases n - i,
        {
            let name = self.email_templates[i].0.clone();
            let template = self.email_templates[i].1.duplicate();
            email_templates.push((name, template));
            i = i + 1;
        }
        let r = SendGrid {
            api_key: self.api_key.clone(),
            sender_name: self.sender_name.clone(),
            sender_email: self.sender_email.clone(),
            email_templates,
        };
        proof {
            assert(r@.email_templates =~= self@.email_templates);
        }
        r
    }

    /// Every template name the registry holds, in table order; for
    /// diagnostics.
    pub fn all_names(&self) -> (r: Vec<String>)
        ensures
            r.deep_view() == self@.template_names(),
    {
        let mut r: Vec<String> = Vec::new();
        let n = self.email_templates.len();
        let mut i: usize = 0;
        while i < n
            invariant
                n == self.email_templates.len(),
                i <= n,
                r@.len() == i as int,
                forall|k: int| 0 <= k < i ==> r@[k]@ == self.email_templates@[k].0@,
            decreases n - i,
        {
            r.push(self.email_templates[i].0.clone());
            i = i + 1;
        }
        proof {
            assert(r.deep_view() =~= self@.template_names());
        }
        r
    }
}

/// True exactly when the two strings hold the same characters.
fn str_eq_strings(a: &String, b: &String) -> (r: bool)
    ensures
        r == (a@ == b@),
{
    str_eq(a.as_str(), b.as_str())
}

/// Ghost image of the broker settings.
pub ghost struct AMQPView {
    pub addr: Seq<char>,
    pub username: Seq<char>,
    pub password: Seq<char>,
    pub vhost: Seq<char>,
    pub exchange_name: Seq<char>,
    pub routing_key: Seq<char>,
    pub queue_name: Seq<char>,
    pub consumer_name: Seq<char>,
    pub workers: int,
}

/// Broker settings: where to connect, which topology to declare, and
/// how many consumer workers to run.
#[derive(Debug)]
pub struct AMQP {
    pub addr: String,
    pub username: String,
    pub password: String,
    pub vhost: String,
    pub exchange_name: String,
    pub routing_key: String,
    pub queue_name: String,
    pub consumer_name: String,
    pub workers: usize,
}

impl View for AMQP {
    type V = AMQPView;

    open spec fn view(&self) -> AMQPView {
        AMQPView {
            addr: self.addr@,
            username: self.username@,
            password: self.password@,
            vhost: self.vhost@,
            exchange_name: self.exchange_name@,
            routing_key: self.routing_key@,
            queue_name: self.queue_name@,
            consumer_name: self.consumer_name@,
            workers: self.workers as int,
        }
    }
}

impl AMQP {
    /// An equal copy of these settings.
    pub fn duplicate(&self) -> (r: AMQP)
        ensures
            r@ == self@,
    {
        AMQP {
            addr: self.addr.clone(),
            username: self.username.clone(),
            password: self.password.clone(),
            vhost: self.vhost.clone(),
            exchange_name: self.exchange_name.clone(),
            routing_key: self.routing_key.clone(),
            queue_name: self.queue_name.clone(),
            consumer_name: self.consumer_name.clone(),
            workers: self.workers,
        }
    }
}

/// The whole configuration: broker settings and provider settings.
#[derive(Debug)]
pub struct Config {
    pub amqp: AMQP,
    pub sendgrid: SendGrid,
}

/// The virtual host used when the configuration names none.
pub fn empty_vhost() -> (r: String)
    ensures
        r@ == "/"@,
{
    "/".to_owned()
}

/// The consumer name used when the configuration names none.
pub fn empty_consumer_name() -> (r: String)
    ensures
        r@ == "sendgrid-amqp-bridge"@,
{
    "sendgrid-amqp-bridge".to_owned()
}

} // verus!
