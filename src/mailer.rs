//! The decisions of the mail sender: which mailing list it sends through,
//! and what it asks of the mailing service. The requests themselves are
//! made by the caller.

use vstd::prelude::*;
use vstd::string::*;
use crate::text::{decimal, decimal_string, same_text};

verus! {

/// The name of the mailing list that messages go through.
pub const MAIN_LIST_NAME: &'static str = "main";

/// A mailing list of the service.
#[derive(Debug)]
pub struct EmailList {
    pub id: u64,
    pub title: String,
}

/// The service's answer to a listing of mailing lists.
#[derive(Debug)]
pub struct EmailListResponse {
    pub result: Vec<EmailList>,
}

/// The id of a mailing list just created.
#[derive(Debug)]
pub struct NewEmailListResult {
    pub id: u64,
}

/// The id of a message just sent.
#[derive(Debug)]
pub struct NewEmailMessageResult {
    pub email_id: String,
}

/// The service's answer to the creation of a mailing list.
#[derive(Debug)]
pub struct NewEmailListResponse {
    pub result: NewEmailListResult,
}

/// The service's answer to a message sent.
#[derive(Debug)]
pub struct NewEmailSentResponse {
    pub result: NewEmailMessageResult,
}

/// Why the mail sender cannot go on.
#[derive(Debug, Clone, Copy, PartialEq, Eq, Structural)]
pub enum MailerError {
    /// No main mailing list is known yet.
    NoMainList,
}

impl MailerError {
    /// The message shown for this error.
    pub fn message(&self) -> (r: &'static str)
        ensures
            r@ == "Create main email list before call the method! (use .initialize_mail_list())"@,
    {
        match self {
            MailerError::NoMainList => "Create main email list before call the method! (use .initialize_mail_list())",
        }
    }
}

/// The id of a known list.
pub open spec fn list_id_of(list: Option<(u64, Seq<char>)>) -> u64 {
    match list {
        Some((id, _)) => id,
        None => 0,
    }
}

/// Query parameters, as names and values.
pub type QueryParams = Vec<(String, String)>;

pub open spec fn params_view(q: Seq<(String, String)>) -> Seq<(Seq<char>, Seq<char>)> {
    q.map_values(|p: (String, String)| (p.0@, p.1@))
}

fn param(name: &str, value: &str) -> (r: (String, String))
    ensures
        r.0@ == name@,
        r.1@ == value@,
{
    (String::from_str(name), String::from_str(value))
}

/// The mail sender: its credentials, the sender it writes as, the language
/// of its messages, and the mailing list it sends through once known.
#[derive(Debug)]
pub struct Mailer {
    api_key: String,
    sender_name: String,
    sender_email: String,
    lang: String,
    main_list: Option<EmailList>,
}

impl Mailer {
    pub closed spec fn api_key_view(&self) -> Seq<char> {
        self.api_key@
    }

    pub closed spec fn sender_name_view(&self) -> Seq<char> {
        self.sender_name@
    }

    pub closed spec fn sender_email_view(&self) -> Seq<char> {
        self.sender_email@
    }

    pub closed spec fn lang_view(&self) -> Seq<char> {
        self.lang@
    }

    /// The id and title of the main list, once known.
    pub closed spec fn main_list_view(&self) -> Option<(u64, Seq<char>)> {
        match self.main_list {
            Some(l) => Some((l.id, l.title@)),
            None => None,
        }
    }

    pub open spec fn same_settings(&self, other: &Mailer) -> bool {
        &&& self.api_key_view() == other.api_key_view()
        &&& self.sender_name_view() == other.sender_name_view()
        &&& self.sender_email_view() == other.sender_email_view()
        &&& self.lang_view() == other.lang_view()
    }

    /// A sender with no main list yet.
    pub fn new(api_key: &str, sender_name: &str, sender_email: &str, lang: &str) -> (r: Self)
        ensures
            r.api_key_view() == api_key@,
            r.sender_name_view() == sender_name@,
            r.sender_email_view() == sender_email@,
            r.lang_view() == lang@,
            r.main_list_view() is None,
    {
        Mailer {
            api_key: String::from_str(api_key),
            sender_name: String::from_str(sender_name),
            sender_email: String::from_str(sender_email),
            lang: String::from_str(lang),
            main_list: None,
        }
    }

    /// The id of the main list, once known.
    pub fn main_list_id(&self) -> (r: Option<u64>)
        ensures
            r == (match self.main_list_view() {
                Some(l) => Some(l.0),
                None => None,
            }),
    {
        match &self.main_list {
            Some(l) => Some(l.id),
            None => None,
        }
    }

    /// Takes as main list the first of `lists` named `main`, if there is one;
    /// returns whether there was.
    pub fn adopt_main_list(&mut self, lists: &Vec<EmailList>) -> (found: bool)
        ensures
            final(self).same_settings(old(self)),
            found <==> exists|i: int| 0 <= i < lists@.len() && #[trigger] lists@[i].title@ == MAIN_LIST_NAME@,
            found ==> exists|i: int|
                0 <= i < lists@.len() && lists@[i].title@ == MAIN_LIST_NAME@ && (forall|j: int|
                    0 <= j < i ==> #[trigger] lists@[j].title@ != MAIN_LIST_NAME@)
                    && final(self).main_list_view() == Some((lists@[i].id, lists@[i].title@)),
            !found ==> final(self).main_list_view() == old(self).main_list_view(),
    {
        let mut i: usize = 0;
        while i < lists.len()
            invariant
                i <= lists@.len(),
                forall|j: int| 0 <= j < i ==> #[trigger] lists@[j].title@ != MAIN_LIST_NAME@,
                *self == *old(self),
            decreases lists@.len() - i,
        {
            if same_text(lists[i].title.as_str(), MAIN_LIST_NAME) {
                self.main_list = Some(EmailList { id: lists[i].id, title: lists[i].title.clone() });
                return true;
            }
            i = i + 1;
        }
        false
    }

    /// Records the main list that was just created with id `id`.
    pub fn main_list_created(&mut self, id: u64)
        ensures
            final(self).same_settings(old(self)),
            final(self).main_list_view() == Some((id, MAIN_LIST_NAME@)),
    {
        self.main_list = Some(EmailList { id, title: String::from_str(MAIN_LIST_NAME) });
    }

    /// The query that lists the mailing lists.
    pub fn lists_query(&self) -> (r: QueryParams)
        ensures
            params_view(r@) == seq![("format"@, "json"@), ("api_key"@, self.api_key_view())],
    {
        let mut q: QueryParams = Vec::new();
        q.push(param("format", "json"));
        q.push(param("api_key", self.api_key.as_str()));
        assert(params_view(q@) =~= seq![("format"@, "json"@), ("api_key"@, self.api_key_view())]);
        q
    }

    /// The query that creates a mailing list named `title`.
    pub fn create_list_query(&self, title: &str) -> (r: QueryParams)
        ensures
            params_view(r@) == seq![
                ("format"@, "json"@),
                ("api_key"@, self.api_key_view()),
                ("title"@, title@),
            ],
    {
        let mut q: QueryParams = Vec::new();
        q.push(param("format", "json"));
        q.push(param("api_key", self.api_key.as_str()));
        q.push(param("title", title));
        assert(params_view(q@) =~= seq![
            ("format"@, "json"@),
            ("api_key"@, self.api_key_view()),
            ("title"@, title@),
        ]);
        q
    }

    /// The query that sends `body` under `subject` to `target_email` through
    /// the main list; refused while no main list is known.
    pub fn send_email_query(&self, target_email: &str, subject: &str, body: &str) -> (r: Result<
        QueryParams,
        MailerError,
    >)
        ensures
            r is Err <==> self.main_list_view() is None,
            r matches Err(e) ==> e == MailerError::NoMainList,
            r matches Ok(q) ==> params_view(q@) == seq![
                ("api_key"@, self.api_key_view()),
                ("format"@, "json"@),
                ("sender_name"@, self.sender_name_view()),
                ("sender_email"@, self.sender_email_view()),
                ("list_id"@, decimal(list_id_of(self.main_list_view()) as nat)),
                ("subject"@, subject@),
                ("body"@, body@),
                ("email"@, target_email@),
                ("lang"@, self.lang_view()),
            ],
    {
        let list_id = match &self.main_list {
            Some(list) => decimal_string(list.id),
            None => {
                return Err(MailerError::NoMainList);
            },
        };
        let mut q: QueryParams = Vec::new();
        q.push(param("api_key", self.api_key.as_str()));
        q.push(param("format", "json"));
        q.push(param("sender_name", self.sender_name.as_str()));
        q.push(param("sender_email", self.sender_email.as_str()));
        q.push(param("list_id", list_id.as_str()));
        q.push(param("subject", subject));
        q.push(param("body", body));
        q.push(param("email", target_email));
        q.push(param("lang", self.lang.as_str()));
        assert(params_view(q@) =~= seq![
            ("api_key"@, self.api_key_view()),
            ("format"@, "json"@),
            ("sender_name"@, self.sender_name_view()),
            ("sender_email"@, self.sender_email_view()),
            ("list_id"@, decimal(list_id_of(self.main_list_view()) as nat)),
            ("subject"@, subject@),
            ("body"@, body@),
            ("email"@, target_email@),
            ("lang"@, self.lang_view()),
        ]);
        Ok(q)
    }
}

} // verus!
