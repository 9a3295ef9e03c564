//! The selection protocol as plain values: requests, the two reply shapes
//! and the refusal.
//!
//! A reply is a property written on the requestor's window, followed by a
//! completion notice that repeats the request's timestamp, selection, target
//! and property. A refusal is the same notice with the property cleared and
//! nothing written.

use vstd::prelude::*;

verus! {

/// The null atom, which in a completion notice's property field means refusal.
pub const NONE: u32 = 0;

/// The predefined atom that types a list of atoms.
pub const ATOM: u32 = 4;

/// The names that have to be interned before the selection is claimed.
#[derive(Clone, Copy, Debug, PartialEq, Eq, Structural)]
pub enum AtomName {
    /// The clipboard selection.
    Clipboard,
    /// The target that asks which content types are on offer.
    Targets,
    /// UTF-8 text.
    Utf8String,
    /// The MIME spelling of UTF-8 text.
    TextPlain,
}

/// The protocol name behind each `AtomName`.
pub open spec fn atom_name_of(name: AtomName) -> Seq<char> {
    match name {
        AtomName::Clipboard => "CLIPBOARD"@,
        AtomName::Targets => "TARGETS"@,
        AtomName::Utf8String => "UTF8_STRING"@,
        AtomName::TextPlain => "text/plain;charset=utf-8"@,
    }
}

impl AtomName {
    /// The string to intern.
    pub fn as_str(&self) -> (name: &'static str)
        ensures
            name@ == atom_name_of(*self),
    {
        match self {
            AtomName::Clipboard => "CLIPBOARD",
            AtomName::Targets => "TARGETS",
            AtomName::Utf8String => "UTF8_STRING",
            AtomName::TextPlain => "text/plain;charset=utf-8",
        }
    }
}

/// The interned atoms that the owner works with.
#[derive(Clone, Copy, Debug, PartialEq, Eq, Structural)]
pub struct Atoms {
    pub clipboard: u32,
    pub targets: u32,
    pub utf8_string: u32,
    pub text_plain: u32,
}

impl Atoms {
    /// A target that asks for the list of supported content types.
    pub open spec fn asks_targets(self, target: u32) -> bool {
        target == self.targets
    }

    /// A target that asks for the content itself: UTF-8 text under either of
    /// its two names. The list query takes precedence where atoms coincide.
    pub open spec fn asks_content(self, target: u32) -> bool {
        target != self.targets && (target == self.utf8_string || target == self.text_plain)
    }
}

/// One request for the selection's contents.
#[derive(Clone, Copy, Debug, PartialEq, Eq, Structural)]
pub struct SelectionRequest {
    pub time: u32,
    pub requestor: u32,
    pub selection: u32,
    pub target: u32,
    pub property: u32,
}

/// The completion notice sent to the requestor.
#[derive(Clone, Copy, Debug, PartialEq, Eq, Structural)]
pub struct SelectionNotify {
    pub time: u32,
    pub requestor: u32,
    pub selection: u32,
    pub target: u32,
    pub property: u32,
}

/// The value written to the requestor's property.
#[derive(Clone, Debug, PartialEq, Eq)]
pub enum Payload {
    /// A list of atoms, in 32-bit units.
    Atoms(Vec<u32>),
    /// Raw bytes, in 8-bit units.
    Bytes(Vec<u8>),
}

/// `Payload` as a mathematical value.
pub enum PayloadView {
    Atoms(Seq<u32>),
    Bytes(Seq<u8>),
}

impl View for Payload {
    type V = PayloadView;

    open spec fn view(&self) -> PayloadView {
        match self {
            Payload::Atoms(atoms) => PayloadView::Atoms(atoms@),
            Payload::Bytes(bytes) => PayloadView::Bytes(bytes@),
        }
    }
}

impl PayloadView {
    /// The width in bits of one unit of the payload.
    pub open spec fn format(self) -> int {
        match self {
            PayloadView::Atoms(_) => 32,
            PayloadView::Bytes(_) => 8,
        }
    }
}

impl Payload {
    /// The width in bits of one unit of the payload.
    pub fn format(&self) -> (bits: u8)
        ensures
            bits == self@.format(),
    {
        match self {
            Payload::Atoms(_) => 32,
            Payload::Bytes(_) => 8,
        }
    }
}

/// A property to replace on a window.
#[derive(Clone, Debug, PartialEq, Eq)]
pub struct PropertyWrite {
    pub window: u32,
    pub property: u32,
    pub type_atom: u32,
    pub payload: Payload,
}

/// `PropertyWrite` as a mathematical value.
pub struct PropertyWriteView {
    pub window: u32,
    pub property: u32,
    pub type_atom: u32,
    pub payload: PayloadView,
}

impl View for PropertyWrite {
    type V = PropertyWriteView;

    open spec fn view(&self) -> PropertyWriteView {
        PropertyWriteView {
            window: self.window,
            property: self.property,
            type_atom: self.type_atom,
            payload: self.payload@,
        }
    }
}

/// What goes out in answer to one request: the property write, if any, and
/// then the completion notice.
#[derive(Clone, Debug, PartialEq, Eq)]
pub struct Reply {
    pub write: Option<PropertyWrite>,
    pub notify: SelectionNotify,
}

/// `Reply` as a mathematical value.
pub struct ReplyView {
    pub write: Option<PropertyWriteView>,
    pub notify: SelectionNotify,
}

impl View for Reply {
    type V = ReplyView;

    open spec fn view(&self) -> ReplyView {
        ReplyView {
            write: match self.write {
                Some(write) => Some(write@),
                None => None,
            },
            notify: self.notify,
        }
    }
}

impl ReplyView {
    /// A reply that delivers raw bytes, as opposed to a list of atoms or a
    /// refusal.
    pub open spec fn discloses(self) -> bool {
        self.write matches Some(write) && write.payload is Bytes
    }

    /// A reply that delivers exactly `bytes`.
    pub open spec fn carries(self, bytes: Seq<u8>) -> bool {
        self.write matches Some(write) && write.payload == PayloadView::Bytes(bytes)
    }
}

/// The notice that completes `request`, naming `property` as the place
/// where the value was put.
pub open spec fn notice(request: SelectionRequest, property: u32) -> SelectionNotify {
    SelectionNotify {
        time: request.time,
        requestor: request.requestor,
        selection: request.selection,
        target: request.target,
        property,
    }
}

/// The reply that delivers `payload`, typed `type_atom`, to the property
/// that `request` names on its requestor's window.
pub open spec fn delivery(request: SelectionRequest, type_atom: u32, payload: PayloadView) -> ReplyView {
    ReplyView {
        write: Some(
            PropertyWriteView {
                window: request.requestor,
                property: request.property,
                type_atom,
                payload,
            },
        ),
        notify: notice(request, request.property),
    }
}

/// The reply that refuses `request`.
pub open spec fn refusal(request: SelectionRequest) -> ReplyView {
    ReplyView { write: None, notify: notice(request, NONE) }
}

/// Builds the reply that delivers `payload` for `request`.
pub fn respond(request: &SelectionRequest, type_atom: u32, payload: Payload) -> (reply: Reply)
    ensures
        reply@ == delivery(*request, type_atom, payload@),
{
    Reply {
        write: Some(
            PropertyWrite {
                window: request.requestor,
                property: request.property,
                type_atom,
                payload,
            },
        ),
        notify: SelectionNotify {
            time: request.time,
            requestor: request.requestor,
            selection: request.selection,
            target: request.target,
            property: request.property,
        },
    }
}

/// Builds the reply that refuses `request`.
pub fn reject(request: &SelectionRequest) -> (reply: Reply)
    ensures
        reply@ == refusal(*request),
{
    Reply {
        write: None,
        notify: SelectionNotify {
            time: request.time,
            requestor: request.requestor,
            selection: request.selection,
            target: request.target,
            property: NONE,
        },
    }
}

/// The prefix `META_SELECTION`, in ASCII, that marks a destination property
/// as bookkeeping of the requestor's own.
pub open spec fn reserved_marker() -> Seq<u8> {
    seq![77u8, 69u8, 84u8, 65u8, 95u8, 83u8, 69u8, 76u8, 69u8, 67u8, 84u8, 73u8, 79u8, 78u8]
}

/// A property name that begins with the reserved marker.
pub open spec fn is_reserved(property_name: Seq<u8>) -> bool {
    reserved_marker().is_prefix_of(property_name)
}

/// Whether a request's destination property carries the reserved marker;
/// such a request gets no reply at all.
pub fn is_reserved_property(property_name: &[u8]) -> (reserved: bool)
    ensures
        reserved == is_reserved(property_name@),
{
    let marker: [u8; 14] = [77, 69, 84, 65, 95, 83, 69, 76, 69, 67, 84, 73, 79, 78];
    assert(marker@ =~= reserved_marker());
    if property_name.len() < 14 {
        return false;
    }
    let mut i: usize = 0;
    while i < 14
        invariant
            i <= 14,
            property_name@.len() >= 14,
            marker@ == reserved_marker(),
            forall|k: int| 0 <= k < i ==> property_name@[k] == marker@[k],
        decreases 14 - i,
    {
        if property_name[i] != marker[i] {
            assert(property_name@.subrange(0, 14)[i as int] != reserved_marker()[i as int]);
            return false;
        }
        i = i + 1;
    }
    assert(property_name@.subrange(0, 14) =~= reserved_marker());
    true
}

} // verus!
