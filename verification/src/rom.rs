//! Packages and the content units inside them.

use vstd::prelude::*;
use vstd::utf8::{decode_utf8, encode_utf8, valid_utf8};
use crate::error::{Error, ErrorView, Invalid, Missing};
use crate::path::{has_extension, path_extension};
use crate::report::{field, find_field};
use crate::text::chars;
use crate::ticket::{
    ticket_title_key, TitleKey, TitleKeyView, SHORT_TITLEID_LEN, TICKET_MIN_LEN,
};
use crate::tool::{inspect_invocation, unpack_invocation, Capability, Invocation, InvocationView};

verus! {

/// The extension of a package file.
pub open spec fn package_extension() -> Seq<char> {
    "nsp"@
}

/// The extension of a content-unit file.
pub open spec fn unit_extension() -> Seq<char> {
    "nca"@
}

/// The extension of a ticket file.
pub open spec fn ticket_extension() -> Seq<char> {
    "tik"@
}

/// What announces the title id in a report of the inspector.
pub open spec fn title_id_marker() -> Seq<char> {
    "Title ID:"@
}

/// What announces the content type in a report of the inspector.
pub open spec fn content_type_marker() -> Seq<char> {
    "Content Type:"@
}

/// The line of a key record that stands for a package without a title key.
pub open spec fn no_title_key() -> Seq<char> {
    seq!['=']
}

/// The kind of content that a unit carries. There is no kind to fall back
/// on: a unit whose kind is not known is no unit.
#[derive(Debug, Clone, Copy, PartialEq, Eq, Structural)]
pub enum NcaType {
    /// Metadata and icons.
    Control,
    /// Executable code and data.
    Program,
    /// The list of what a package holds.
    Meta,
    /// An instruction booklet.
    Manual,
}

impl NcaType {
    /// The name of the kind, as a report of the inspector spells it.
    pub open spec fn name(self) -> Seq<char> {
        match self {
            NcaType::Control => "Control"@,
            NcaType::Program => "Program"@,
            NcaType::Meta => "Meta"@,
            NcaType::Manual => "Manual"@,
        }
    }

    /// The kind that `token` names, if it names one. Upper and lower case
    /// differ.
    pub open spec fn named(token: Seq<char>) -> Option<NcaType> {
        if token == "Control"@ {
            Some(NcaType::Control)
        } else if token == "Program"@ {
            Some(NcaType::Program)
        } else if token == "Meta"@ {
            Some(NcaType::Meta)
        } else if token == "Manual"@ {
            Some(NcaType::Manual)
        } else {
            None
        }
    }

    /// The name of the kind.
    pub fn to_string(&self) -> (text: String)
        ensures
            text@ == self.name(),
    {
        match self {
            NcaType::Control => "Control".to_owned(),
            NcaType::Program => "Program".to_owned(),
            NcaType::Meta => "Meta".to_owned(),
            NcaType::Manual => "Manual".to_owned(),
        }
    }

    /// Reads the name of a kind. Anything else is a validation error.
    pub fn from_str(token: &str) -> (res: Result<NcaType, Error>)
        ensures
            match NcaType::named(token@) {
                Some(kind) => res == Ok::<NcaType, Error>(kind),
                None => res is Err && res->Err_0@ == ErrorView::Validation(Invalid::ContentType),
            },
    {
        let token = token.to_owned();
        if token == "Control".to_owned() {
            Ok(NcaType::Control)
        } else if token == "Program".to_owned() {
            Ok(NcaType::Program)
        } else if token == "Meta".to_owned() {
            Ok(NcaType::Meta)
        } else if token == "Manual".to_owned() {
            Ok(NcaType::Manual)
        } else {
            Err(Error::Validation(Invalid::ContentType))
        }
    }
}

/// Each kind is read back from its own name.
pub proof fn lemma_kind_name_round_trip(kind: NcaType)
    ensures
        NcaType::named(kind.name()) == Some(kind),
{
    reveal_strlit("Control");
    reveal_strlit("Program");
    reveal_strlit("Meta");
    reveal_strlit("Manual");
    assert("Control"@.len() == 7);
    assert("Program"@.len() == 7);
    assert("Meta"@.len() == 4);
    assert("Manual"@.len() == 6);
    assert("Control"@[0] == 'C');
    assert("Program"@[0] == 'P');
}

/// A content unit whose kind is known.
#[derive(Debug, PartialEq, Eq)]
pub struct Nca {
    path: String,
    title_id: Option<String>,
    content_type: NcaType,
}

/// The mathematical value of an [`Nca`].
pub struct NcaView {
    pub path: Seq<char>,
    pub title_id: Option<Seq<char>>,
    pub content_type: NcaType,
}

impl View for Nca {
    type V = NcaView;

    closed spec fn view(&self) -> NcaView {
        NcaView {
            path: self.path@,
            title_id: match self.title_id {
                Some(id) => Some(id@),
                None => None,
            },
            content_type: self.content_type,
        }
    }
}

/// What a report says of the unit at `path`: its kind, which the report must
/// give, and its title id, which it may give.
pub open spec fn classified(path: Seq<char>, report: Seq<char>) -> Result<NcaView, ErrorView> {
    match field(report, content_type_marker()) {
        None => Err(ErrorView::Validation(Invalid::MissingContentType)),
        Some(token) => match NcaType::named(token) {
            None => Err(ErrorView::Validation(Invalid::ContentType)),
            Some(kind) => Ok(
                NcaView { path, title_id: field(report, title_id_marker()), content_type: kind },
            ),
        },
    }
}

/// What a run of the inspector on `path` amounts to, given whether it exited
/// with success and what it wrote to its standard output.
pub open spec fn inspected(path: Seq<char>, success: bool, output: Seq<u8>) -> Result<
    NcaView,
    ErrorView,
> {
    if path_extension(path) != Some(unit_extension()) {
        Err(ErrorView::Validation(Invalid::ContentUnit))
    } else if !success {
        Err(ErrorView::ExternalTool(Capability::Inspector, path))
    } else if !valid_utf8(output) {
        Err(ErrorView::Validation(Invalid::Report))
    } else {
        classified(path, decode_utf8(output))
    }
}

/// A report whose content type is not one of the four kinds yields no
/// unit but a validation error, and so does a report without a content
/// type; a report with one of the four kinds yields a unit of that kind.
pub proof fn lemma_classified(path: Seq<char>, report: Seq<char>)
    ensures
        (field(report, content_type_marker()) matches Some(token) && NcaType::named(token) is None)
            ==> classified(path, report) == Err::<NcaView, ErrorView>(
            ErrorView::Validation(Invalid::ContentType),
        ),
        field(report, content_type_marker()) is None ==> classified(path, report) == Err::<
            NcaView,
            ErrorView,
        >(ErrorView::Validation(Invalid::MissingContentType)),
        classified(path, report) matches Ok(unit) ==> {
            &&& unit.path == path
            &&& unit.title_id == field(report, title_id_marker())
            &&& field(report, content_type_marker()) matches Some(token) && NcaType::named(token)
                == Some(unit.content_type)
        },
{
}

/// Calls `std::str::from_utf8`. Trusted: there is a text exactly where
/// `bytes` is valid UTF-8, and its encoding is `bytes`.
#[verifier::external_body]
fn utf8_text(bytes: &[u8]) -> (text: Option<String>)
    ensures
        match text {
            Some(t) => valid_utf8(bytes@) && encode_utf8(t@) == bytes@,
            None => !valid_utf8(bytes@),
        },
{
    match std::str::from_utf8(bytes) {
        Ok(text) => Some(text.to_owned()),
        Err(_) => None,
    }
}

impl Clone for Nca {
    fn clone(&self) -> (copy: Nca)
        ensures
            copy@ == self@,
    {
        let title_id = match &self.title_id {
            Some(id) => Some(id.clone()),
            None => None,
        };
        Nca { path: self.path.clone(), title_id, content_type: self.content_type }
    }
}

impl Nca {
    /// Where the unit lies.
    pub fn path(&self) -> (path: &str)
        ensures
            path@ == self@.path,
    {
        self.path.as_str()
    }

    /// The title id that the report gave, if it gave one.
    pub fn title_id(&self) -> (id: Option<&str>)
        ensures
            match id {
                Some(text) => self@.title_id == Some(text@),
                None => self@.title_id is None,
            },
    {
        match &self.title_id {
            Some(id) => Some(id.as_str()),
            None => None,
        }
    }

    /// The kind of the unit.
    pub fn content_type(&self) -> (kind: NcaType)
        ensures
            kind == self@.content_type,
    {
        self.content_type
    }

    /// The run of the inspector that classifies the file at `path`. A path
    /// that does not carry the content-unit extension is a validation
    /// error, and nothing is to be run.
    pub fn inspect(path: &str) -> (res: Result<Invocation, Error>)
        ensures
            match res {
                Ok(run) => path_extension(path@) == Some(unit_extension()) && run@
                    == inspect_invocation(path@),
                Err(e) => path_extension(path@) != Some(unit_extension()) && e@
                    == ErrorView::Validation(Invalid::ContentUnit),
            },
    {
        if !has_extension(path, "nca") {
            return Err(Error::Validation(Invalid::ContentUnit));
        }
        Ok(Invocation::inspect(path))
    }

    /// Classifies the unit at `path` by the text of a report.
    pub fn classify(path: &str, report: &str) -> (res: Result<Nca, Error>)
        ensures
            match res {
                Ok(unit) => classified(path@, report@) == Ok::<NcaView, ErrorView>(unit@),
                Err(e) => classified(path@, report@) == Err::<NcaView, ErrorView>(e@),
            },
    {
        let text = chars(report);
        let title_id = match find_field(&text, &chars("Title ID:")) {
            Some((from, to)) => Some(report.substring_char(from, to).to_owned()),
            None => None,
        };
        match find_field(&text, &chars("Content Type:")) {
            None => Err(Error::Validation(Invalid::MissingContentType)),
            Some((from, to)) => {
                match NcaType::from_str(report.substring_char(from, to)) {
                    Ok(kind) => Ok(Nca { path: path.to_owned(), title_id, content_type: kind }),
                    Err(e) => Err(e),
                }
            },
        }
    }

    /// Makes a content unit of the file at `path` and of what the run of
    /// the inspector on it gave: whether it exited with success, and its
    /// standard output.
    pub fn from(path: &str, success: bool, output: &[u8]) -> (res: Result<Nca, Error>)
        ensures
            match res {
                Ok(unit) => inspected(path@, success, output@) == Ok::<NcaView, ErrorView>(unit@),
                Err(e) => inspected(path@, success, output@) == Err::<NcaView, ErrorView>(e@),
            },
    {
        if !has_extension(path, "nca") {
            return Err(Error::Validation(Invalid::ContentUnit));
        }
        if !success {
            return Err(Error::ExternalTool(Capability::Inspector, path.to_owned()));
        }
        match utf8_text(output) {
            None => Err(Error::Validation(Invalid::Report)),
            Some(report) => {
                proof {
                    vstd::utf8::encode_utf8_decode_utf8(report@);
                }
                Nca::classify(path, report.as_str())
            },
        }
    }
}

/// A package: where it lies and, once derived, its title key.
#[derive(Debug, PartialEq, Eq)]
pub struct Nsp {
    path: String,
    title_key: Option<TitleKey>,
}

/// The mathematical value of an [`Nsp`].
pub struct NspView {
    pub path: Seq<char>,
    pub title_key: Option<TitleKeyView>,
}

impl NspView {
    /// The line that stands for the package in a key record: the textual
    /// form of its title key, or `=` alone while it has none.
    pub open spec fn title_key_text(self) -> Seq<char> {
        match self.title_key {
            Some(key) => key.text(),
            None => no_title_key(),
        }
    }

    /// The package after an attempt to derive its title key from `ticket`,
    /// the bytes of the first ticket among its extracted members.
    pub open spec fn derived(self, ticket: Option<Seq<u8>>) -> NspView {
        match (self.title_key, ticket) {
            (None, Some(bytes)) if bytes.len() >= TICKET_MIN_LEN => NspView {
                path: self.path,
                title_key: Some(ticket_title_key(bytes)),
            },
            _ => self,
        }
    }

    /// How an attempt to derive the title key from `ticket` ends.
    pub open spec fn derivation(self, ticket: Option<Seq<u8>>) -> Result<(), ErrorView> {
        match (self.title_key, ticket) {
            (Some(_), _) => Ok(()),
            (None, None) => Err(ErrorView::NotFound(Missing::Ticket)),
            (None, Some(bytes)) => if bytes.len() >= TICKET_MIN_LEN {
                Ok(())
            } else {
                Err(ErrorView::Io)
            },
        }
    }
}

/// The handle of the package at `path`, or the validation error for a path
/// that does not carry the package extension.
pub open spec fn package(path: Seq<char>) -> Result<NspView, ErrorView> {
    if path_extension(path) == Some(package_extension()) {
        Ok(NspView { path, title_key: None })
    } else {
        Err(ErrorView::Validation(Invalid::Package))
    }
}

/// A title id cut down to its first sixteen characters.
pub open spec fn short_title_id(title_id: Seq<char>) -> Seq<char> {
    if title_id.len() <= SHORT_TITLEID_LEN {
        title_id
    } else {
        title_id.take(SHORT_TITLEID_LEN as int)
    }
}

/// Cuts a title id down to its first sixteen characters.
pub fn shorten_title_id(title_id: &str) -> (short: String)
    ensures
        short@ == short_title_id(title_id@),
{
    let len = title_id.unicode_len();
    if len <= SHORT_TITLEID_LEN {
        title_id.to_owned()
    } else {
        let short = title_id.substring_char(0, SHORT_TITLEID_LEN);
        assert(title_id@.subrange(0, SHORT_TITLEID_LEN as int) == title_id@.take(
            SHORT_TITLEID_LEN as int,
        ));
        short.to_owned()
    }
}

impl View for Nsp {
    type V = NspView;

    closed spec fn view(&self) -> NspView {
        NspView {
            path: self.path@,
            title_key: match self.title_key {
                Some(key) => Some(key@),
                None => None,
            },
        }
    }
}

impl Clone for Nsp {
    fn clone(&self) -> (copy: Nsp)
        ensures
            copy@ == self@,
    {
        proof {
            use_type_invariant(self);
        }
        Nsp { path: self.path.clone(), title_key: self.title_key }
    }
}

impl Nsp {
    /// The path of a package carries the package extension.
    #[verifier::type_invariant]
    spec fn well_formed(self) -> bool {
        path_extension(self.path@) == Some(package_extension())
    }

    /// Makes the handle of the package at `path`, without a title key. A
    /// path that does not carry the package extension is a validation
    /// error.
    pub fn from(path: &str) -> (res: Result<Nsp, Error>)
        ensures
            match res {
                Ok(nsp) => package(path@) == Ok::<NspView, ErrorView>(nsp@),
                Err(e) => package(path@) == Err::<NspView, ErrorView>(e@),
            },
    {
        if !has_extension(path, "nsp") {
            return Err(Error::Validation(Invalid::Package));
        }
        Ok(Nsp { path: path.to_owned(), title_key: None })
    }

    /// Where the package lies.
    pub fn path(&self) -> (path: &str)
        ensures
            path@ == self@.path,
            path_extension(path@) == Some(package_extension()),
    {
        proof {
            use_type_invariant(self);
        }
        self.path.as_str()
    }

    /// The title key, once it has been derived.
    pub fn title_key(&self) -> (key: Option<TitleKey>)
        ensures
            match key {
                Some(k) => self@.title_key == Some(k@),
                None => self@.title_key is None,
            },
    {
        self.title_key
    }

    /// The run of the unpacker that extracts the members of the package
    /// into `dir`.
    pub fn extract_data_to(&self, dir: &str) -> (run: Invocation)
        ensures
            run@ == unpack_invocation(dir@, self@.path),
    {
        Invocation::unpack(dir, self.path.as_str())
    }

    /// Derives the title key from `ticket`, the bytes of the first ticket
    /// among the extracted members of the package, where there is one.
    ///
    /// A package that has a title key keeps it, whatever `ticket` is, and
    /// the call succeeds. Otherwise a missing ticket is a not-found error, a
    /// ticket that is too short an I/O error, and the key of any other
    /// ticket is stored.
    pub fn derive_title_key(&mut self, ticket: Option<&[u8]>) -> (res: Result<(), Error>)
        ensures
            final(self)@ == old(self)@.derived(
                match ticket {
                    Some(bytes) => Some(bytes@),
                    None => None,
                },
            ),
            match res {
                Ok(()) => old(self)@.derivation(
                    match ticket {
                        Some(bytes) => Some(bytes@),
                        None => None,
                    },
                ) == Ok::<(), ErrorView>(()),
                Err(e) => old(self)@.derivation(
                    match ticket {
                        Some(bytes) => Some(bytes@),
                        None => None,
                    },
                ) == Err::<(), ErrorView>(e@),
            },
    {
        proof {
            use_type_invariant(&*self);
        }
        if self.title_key.is_some() {
            return Ok(());
        }
        match ticket {
            None => Err(Error::NotFound(Missing::Ticket)),
            Some(bytes) => match TitleKey::new(bytes) {
                Ok(key) => {
                    self.title_key = Some(key);
                    Ok(())
                },
                Err(e) => Err(e),
            },
        }
    }

    /// The line that stands for the package in a key record.
    pub fn get_title_key(&self) -> (text: String)
        ensures
            text@ == self@.title_key_text(),
    {
        match &self.title_key {
            Some(key) => key.to_string(),
            None => {
                proof {
                    reveal_strlit("=");
                    assert("="@ =~= seq!['=']);
                }
                "=".to_owned()
            },
        }
    }
}

/// Deriving the title key a second time changes nothing and succeeds,
/// whatever the second attempt is given: a package whose title key was
/// derived keeps that key.
pub proof fn lemma_derive_title_key_idempotent(
    nsp: NspView,
    first: Option<Seq<u8>>,
    second: Option<Seq<u8>>,
)
    requires
        nsp.derivation(first) is Ok,
    ensures
        nsp.derived(first).derived(second) == nsp.derived(first),
        nsp.derived(first).derivation(second) is Ok,
        nsp.derived(first).title_key is Some,
{
}

/// A title key, once present, is never taken away or replaced.
pub proof fn lemma_title_key_stays(nsp: NspView, ticket: Option<Seq<u8>>)
    requires
        nsp.title_key is Some,
    ensures
        nsp.derived(ticket) == nsp,
        nsp.derivation(ticket) is Ok,
{
}

} // verus!
