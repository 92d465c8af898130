//! A portable error taxonomy with causal chaining, and the translator that
//! maps host-specific failure signals into it.
//!
//! Every failure in this crate is an [`Error`]: a category tag, a
//! human-readable message, and an optional cause, itself an [`Error`].
//! The model of an error is the whole chain, outermost first, as a sequence
//! of (category, message) pairs.
//!
//! The host reports failures as exception objects carrying a legacy numeric
//! code, a name, and a message. [`HostSignal`] carries those as plain values,
//! and mapping a signal onto an [`Error`] looks at those values alone.

use vstd::prelude::*;

use wasm_bindgen::JsCast;

verus! {

/// The category of a failure.
#[derive(Clone, Copy, Debug, PartialEq, Eq, Structural)]
pub enum ErrorKind {
    /// A named directory or file does not exist and could not be created.
    NotFound,
    /// The host refused access to a directory or file.
    PermissionDenied,
    /// A request that is invalid on its face: a malformed path, a malformed
    /// seek, or an oversized length.
    InvalidInput,
    /// A path component names an entity of the wrong sort, such as a file
    /// where a directory was expected.
    TypeMismatch,
    /// The exclusive access handle on the file is already held elsewhere.
    Contention,
    /// The backing store was already opened.
    AlreadyInitialized,
    /// The backing store has not been opened yet.
    NotInitialized,
    /// Any other failure; the message carries what the host reported.
    Other,
}

/// A failure: a category, a message, and an optional cause.
#[derive(Debug)]
pub struct Error {
    kind: ErrorKind,
    message: String,
    cause: Option<Box<Error>>,
}

/// The messages of a chain, in order.
pub open spec fn chain_messages_of(chain: Seq<(ErrorKind, Seq<char>)>) -> Seq<Seq<char>> {
    chain.map_values(|p: (ErrorKind, Seq<char>)| p.1)
}

/// The parts concatenated with the separator between each adjacent pair.
pub open spec fn joined(parts: Seq<Seq<char>>, sep: Seq<char>) -> Seq<char>
    decreases parts.len(),
{
    if parts.len() == 0 {
        Seq::empty()
    } else if parts.len() == 1 {
        parts[0]
    } else {
        parts[0] + sep + joined(parts.drop_first(), sep)
    }
}

impl Error {
    /// The causal chain of this error, outermost first.
    pub closed spec fn chain(self) -> Seq<(ErrorKind, Seq<char>)>
        decreases self,
    {
        match self.cause {
            None => seq![(self.kind, self.message@)],
            Some(inner) => seq![(self.kind, self.message@)] + inner.chain(),
        }
    }

    /// The outermost category of this error.
    pub closed spec fn spec_kind(self) -> ErrorKind {
        self.kind
    }

    /// A chain is never empty and starts with the outermost category.
    pub proof fn lemma_chain_shape(self)
        ensures
            self.chain().len() >= 1,
            self.chain()[0].0 == self.spec_kind(),
        decreases self,
    {
        match self.cause {
            None => {},
            Some(inner) => {},
        }
    }

    /// An error with no cause.
    pub fn new(kind: ErrorKind, message: String) -> (r: Error)
        ensures
            r.chain() == seq![(kind, message@)],
            r.spec_kind() == kind,
    {
        Error { kind, message, cause: None }
    }

    /// An error wrapping the failure that caused it.
    pub fn with_cause(kind: ErrorKind, message: String, cause: Error) -> (r: Error)
        ensures
            r.chain() == seq![(kind, message@)] + cause.chain(),
            r.spec_kind() == kind,
    {
        Error { kind, message, cause: Some(Box::new(cause)) }
    }

    /// The outermost category.
    pub fn kind(&self) -> (k: ErrorKind)
        ensures
            k == self.spec_kind(),
    {
        self.kind
    }

    /// The name of the outermost category, as a coarse-grained tag for
    /// programmatic handling.
    pub fn kind_name(&self) -> (r: String)
        ensures
            r@ == kind_label(self.spec_kind()),
    {
        match self.kind {
            ErrorKind::NotFound => "NotFound".to_owned(),
            ErrorKind::PermissionDenied => "PermissionDenied".to_owned(),
            ErrorKind::InvalidInput => "InvalidInput".to_owned(),
            ErrorKind::TypeMismatch => "TypeMismatch".to_owned(),
            ErrorKind::Contention => "Contention".to_owned(),
            ErrorKind::AlreadyInitialized => "AlreadyInitialized".to_owned(),
            ErrorKind::NotInitialized => "NotInitialized".to_owned(),
            ErrorKind::Other => "Other".to_owned(),
        }
    }

    /// The tag for the outward-facing host error object: the category name
    /// followed by the host's error-name suffix.
    pub fn outward_name(&self) -> (r: String)
        ensures
            r@ == kind_label(self.spec_kind()) + "Error"@,
    {
        let mut parts: Vec<String> = Vec::new();
        parts.push(self.kind_name());
        parts.push("Error".to_owned());
        proof {
            assert(parts.deep_view() =~= seq![kind_label(self.spec_kind()), "Error"@]);
        }
        let r = join_with_sep(&parts, "");
        proof {
            reveal_strlit("");
            let pd = parts.deep_view();
            assert(pd.len() == 2);
            assert(joined(pd, ""@) == pd[0] + ""@ + joined(pd.drop_first(), ""@));
            assert(joined(pd.drop_first(), ""@) == pd.drop_first()[0]);
            assert(pd.drop_first()[0] == pd[1]);
            assert(""@ =~= Seq::<char>::empty());
            assert(r@ =~= kind_label(self.spec_kind()) + "Error"@);
        }
        r
    }

    fn push_messages(&self, out: &mut Vec<String>)
        ensures
            final(out).deep_view() == old(out).deep_view() + chain_messages_of(self.chain()),
        decreases *self,
    {
        out.push(self.message.clone());
        proof {
            assert(out.deep_view() =~= old(out).deep_view().push(self.message@));
        }
        match &self.cause {
            None => {
                proof {
                    assert(out.deep_view() =~= old(out).deep_view() + chain_messages_of(
                        self.chain(),
                    ));
                }
            },
            Some(inner) => {
                inner.push_messages(out);
                proof {
                    assert(out.deep_view() =~= old(out).deep_view() + chain_messages_of(
                        self.chain(),
                    ));
                }
            },
        }
    }

    /// The message of every link of the chain, outermost first.
    pub fn chain_messages(&self) -> (r: Vec<String>)
        ensures
            r.deep_view() == chain_messages_of(self.chain()),
    {
        let mut out: Vec<String> = Vec::new();
        self.push_messages(&mut out);
        proof {
            assert(out.deep_view() =~= chain_messages_of(self.chain()));
        }
        out
    }

    /// The whole causal chain as one diagnostic line, outermost first.
    pub fn describe(&self) -> (r: String)
        ensures
            r@ == joined(chain_messages_of(self.chain()), ": "@),
    {
        let parts = self.chain_messages();
        join_with_sep(&parts, ": ")
    }
}

/// The name of each category.
pub open spec fn kind_label(k: ErrorKind) -> Seq<char> {
    match k {
        ErrorKind::NotFound => "NotFound"@,
        ErrorKind::PermissionDenied => "PermissionDenied"@,
        ErrorKind::InvalidInput => "InvalidInput"@,
        ErrorKind::TypeMismatch => "TypeMismatch"@,
        ErrorKind::Contention => "Contention"@,
        ErrorKind::AlreadyInitialized => "AlreadyInitialized"@,
        ErrorKind::NotInitialized => "NotInitialized"@,
        ErrorKind::Other => "Other"@,
    }
}

/// Relies on the standard library's slice join, which concatenates the parts
/// with the separator between each adjacent pair.
#[verifier::external_body]
fn join_with_sep(parts: &Vec<String>, sep: &str) -> (r: String)
    ensures
        r@ == joined(parts.deep_view(), sep@),
{
    parts.join(sep)
}

/// The legacy exception code the host assigns to a missing entry.
pub const NOT_FOUND_CODE: u16 = 8;

/// The legacy exception code the host assigns to a read of forbidden data.
pub const NO_DATA_ALLOWED_CODE: u16 = 6;

/// The legacy exception code the host assigns to a forbidden modification;
/// during handle acquisition it signals that the exclusive handle is already
/// held.
pub const NO_MODIFICATION_ALLOWED_CODE: u16 = 7;

/// The legacy exception code the host assigns to an entry of the wrong sort.
pub const TYPE_MISMATCH_CODE: u16 = 17;

/// A host failure signal, reduced to plain values: either an exception with
/// its legacy code, name and message, or an opaque value rendered as text.
pub enum HostSignal {
    Exception { code: u16, name: String, message: String },
    Opaque { text: String },
}

/// The portable category for a legacy exception code.
pub open spec fn kind_of_code(code: u16) -> ErrorKind {
    if code == NOT_FOUND_CODE {
        ErrorKind::NotFound
    } else if code == NO_DATA_ALLOWED_CODE || code == NO_MODIFICATION_ALLOWED_CODE {
        ErrorKind::PermissionDenied
    } else if code == TYPE_MISMATCH_CODE {
        ErrorKind::TypeMismatch
    } else {
        ErrorKind::Other
    }
}

/// The single chain link that a translated signal yields.
pub open spec fn signal_link(sig: HostSignal, kind: ErrorKind) -> (ErrorKind, Seq<char>) {
    match sig {
        HostSignal::Exception { code, name, message } => (
            kind,
            joined(seq![name@, message@], ": "@),
        ),
        HostSignal::Opaque { text } => (ErrorKind::Other, text@),
    }
}

/// The category a data-plane failure signal translates to.
pub open spec fn signal_kind(sig: HostSignal) -> ErrorKind {
    match sig {
        HostSignal::Exception { code, .. } => kind_of_code(code),
        HostSignal::Opaque { .. } => ErrorKind::Other,
    }
}

/// The category an acquisition failure signal translates to: a forbidden
/// modification at that point means the exclusive handle is already held.
pub open spec fn acquire_signal_kind(sig: HostSignal) -> ErrorKind {
    match sig {
        HostSignal::Exception { code, .. } => if code == NO_MODIFICATION_ALLOWED_CODE {
            ErrorKind::Contention
        } else {
            kind_of_code(code)
        },
        HostSignal::Opaque { .. } => ErrorKind::Other,
    }
}

fn exception_message(name: String, message: String) -> (r: String)
    ensures
        r@ == joined(seq![name@, message@], ": "@),
{
    let mut parts: Vec<String> = Vec::new();
    parts.push(name);
    parts.push(message);
    proof {
        assert(parts.deep_view() =~= seq![name@, message@]);
    }
    join_with_sep(&parts, ": ")
}

fn kind_for_code(code: u16) -> (k: ErrorKind)
    ensures
        k == kind_of_code(code),
{
    if code == NOT_FOUND_CODE {
        ErrorKind::NotFound
    } else if code == NO_DATA_ALLOWED_CODE || code == NO_MODIFICATION_ALLOWED_CODE {
        ErrorKind::PermissionDenied
    } else if code == TYPE_MISMATCH_CODE {
        ErrorKind::TypeMismatch
    } else {
        ErrorKind::Other
    }
}

/// Translate a data-plane host signal into a portable error.
pub fn translate_signal(sig: HostSignal) -> (r: Error)
    ensures
        r.chain() == seq![signal_link(sig, signal_kind(sig))],
        r.spec_kind() == signal_kind(sig),
{
    let r = match sig {
        HostSignal::Exception { code, name, message } => Error::new(
            kind_for_code(code),
            exception_message(name, message),
        ),
        HostSignal::Opaque { text } => Error::new(ErrorKind::Other, text),
    };
    r
}

/// Translate a host signal raised while acquiring the exclusive handle: a
/// forbidden modification there means the handle is already held elsewhere.
pub fn translate_acquire_signal(sig: HostSignal) -> (r: Error)
    ensures
        r.chain() == seq![signal_link(sig, acquire_signal_kind(sig))],
        r.spec_kind() == acquire_signal_kind(sig),
{
    let r = match sig {
        HostSignal::Exception { code, name, message } => {
            let kind = if code == NO_MODIFICATION_ALLOWED_CODE {
                ErrorKind::Contention
            } else {
                kind_for_code(code)
            };
            Error::new(kind, exception_message(name, message))
        },
        HostSignal::Opaque { text } => Error::new(ErrorKind::Other, text),
    };
    r
}

#[verifier::external_type_specification]
#[verifier::external_body]
pub struct ExJsValue(wasm_bindgen::JsValue);

/// Relies on DomException's code, name and message accessors, and on
/// rendering any other value as text through its object form: reduces the
/// host failure value to plain values, deciding nothing.
#[verifier::external_body]
fn host_signal_of(v: wasm_bindgen::JsValue) -> (r: HostSignal) {
    match v.dyn_ref::<web_sys::DomException>() {
        Some(dom) => HostSignal::Exception {
            code: dom.code(),
            name: dom.name(),
            message: dom.message(),
        },
        None => HostSignal::Opaque { text: String::from(js_sys::Object::from(v).to_string()) },
    }
}

/// The categories a data-plane host failure can translate to.
pub open spec fn host_error_kind(k: ErrorKind) -> bool {
    ||| k == ErrorKind::NotFound
    ||| k == ErrorKind::PermissionDenied
    ||| k == ErrorKind::TypeMismatch
    ||| k == ErrorKind::Other
}

/// Translate a data-plane host failure value into a portable error.
pub fn error_from_host(v: wasm_bindgen::JsValue) -> (r: Error)
    ensures
        r.chain().len() == 1,
        host_error_kind(r.spec_kind()),
{
    translate_signal(host_signal_of(v))
}

/// Translate a host failure value raised while acquiring the exclusive
/// handle into a portable error.
pub fn error_from_host_acquire(v: wasm_bindgen::JsValue) -> (r: Error)
    ensures
        r.chain().len() == 1,
        host_error_kind(r.spec_kind()) || r.spec_kind() == ErrorKind::Contention,
{
    translate_acquire_signal(host_signal_of(v))
}

} // verus!
