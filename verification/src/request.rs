//! The caller's question, the popup request made of it, and request identifiers.

use crate::decimal::{append_decimal, decimal_text, lemma_decimal_text_injective};
use vstd::prelude::*;

verus! {

/// What the caller asks of the human.
#[derive(Debug, PartialEq, Eq)]
pub struct InteractionRequest {
    /// The message to show.
    pub message: String,
    /// The choices offered, in order; empty where none is offered.
    pub predefined_options: Vec<String>,
    /// Whether the message is Markdown.
    pub is_markdown: bool,
    /// The caller's own name for the work session, if it gives one.
    pub working_directory: Option<String>,
}

/// The mathematical model of [`InteractionRequest`].
pub ghost struct InteractionRequestView {
    pub message: Seq<char>,
    pub predefined_options: Seq<Seq<char>>,
    pub is_markdown: bool,
    pub working_directory: Option<Seq<char>>,
}

impl View for InteractionRequest {
    type V = InteractionRequestView;

    open spec fn view(&self) -> InteractionRequestView {
        InteractionRequestView {
            message: self.message@,
            predefined_options: self.predefined_options.deep_view(),
            is_markdown: self.is_markdown,
            working_directory: self.working_directory.deep_view(),
        }
    }
}

impl InteractionRequest {
    /// A request that offers no choices and names no working directory.
    pub fn new(message: String, is_markdown: bool) -> (request: InteractionRequest)
        ensures
            request@ == (InteractionRequestView {
                message: message@,
                predefined_options: Seq::empty(),
                is_markdown,
                working_directory: None,
            }),
    {
        let request = InteractionRequest {
            message,
            predefined_options: Vec::new(),
            is_markdown,
            working_directory: None,
        };
        assert(request.predefined_options.deep_view() =~= Seq::empty());
        request
    }
}

/// What the popup subsystem is asked to show.
#[derive(Debug, PartialEq, Eq)]
pub struct PopupRequest {
    /// The identifier of this request, unlike that of any other request.
    pub id: String,
    /// The message to show.
    pub message: String,
    /// The choices offered, in order; `None` where none is offered, never empty.
    pub predefined_options: Option<Vec<String>>,
    /// Reserved for routing; always `None`.
    pub bot_name: Option<String>,
    /// The identifier of the calling work session, where one was found.
    pub session_id: Option<String>,
    /// Whether the message is Markdown.
    pub is_markdown: bool,
}

/// The mathematical model of [`PopupRequest`].
pub ghost struct PopupRequestView {
    pub id: Seq<char>,
    pub message: Seq<char>,
    pub predefined_options: Option<Seq<Seq<char>>>,
    pub bot_name: Option<Seq<char>>,
    pub session_id: Option<Seq<char>>,
    pub is_markdown: bool,
}

impl PopupRequestView {
    /// The shape that every constructed request has: offered choices are never
    /// an empty list, and no bot is named.
    pub open spec fn is_normalized(self) -> bool {
        &&& self.predefined_options matches Some(options) ==> options.len() > 0
        &&& self.bot_name is None
    }
}

impl View for PopupRequest {
    type V = PopupRequestView;

    open spec fn view(&self) -> PopupRequestView {
        PopupRequestView {
            id: self.id@,
            message: self.message@,
            predefined_options: self.predefined_options.deep_view(),
            bot_name: self.bot_name.deep_view(),
            session_id: self.session_id.deep_view(),
            is_markdown: self.is_markdown,
        }
    }
}

/// An empty list of choices is no choice offered; any other list is passed on
/// as it is.
pub open spec fn normalized_options(options: Seq<Seq<char>>) -> Option<Seq<Seq<char>>> {
    if options.len() == 0 {
        None
    } else {
        Some(options)
    }
}

/// The popup request for a caller's request, under a given identifier and
/// with a given session identifier.
pub open spec fn popup_request_for(
    request: InteractionRequestView,
    id: Seq<char>,
    session_id: Option<Seq<char>>,
) -> PopupRequestView {
    PopupRequestView {
        id,
        message: request.message,
        predefined_options: normalized_options(request.predefined_options),
        bot_name: None,
        session_id,
        is_markdown: request.is_markdown,
    }
}

impl PopupRequest {
    /// Builds the popup request: message and Markdown flag are copied, an
    /// empty list of choices becomes `None`, a list with choices is passed on
    /// as it is, and no bot is named.
    pub fn build(request: InteractionRequest, id: String, session_id: Option<String>) -> (popup:
        PopupRequest)
        ensures
            popup@ == popup_request_for(request@, id@, session_id.deep_view()),
            popup@.is_normalized(),
    {
        let options: Option<Vec<String>> = if request.predefined_options.len() == 0 {
            None
        } else {
            Some(request.predefined_options)
        };
        PopupRequest {
            id,
            message: request.message,
            predefined_options: options,
            bot_name: None,
            session_id,
            is_markdown: request.is_markdown,
        }
    }
}

/// The text of the request identifier with a given sequence number.
pub open spec fn request_id_text(sequence: nat) -> Seq<char> {
    "request_"@ + decimal_text(sequence)
}

/// Request identifiers with different sequence numbers are different texts.
pub proof fn lemma_request_ids_distinct(a: nat, b: nat)
    requires
        a != b,
    ensures
        request_id_text(a) != request_id_text(b),
{
    if request_id_text(a) == request_id_text(b) {
        let prefix = "request_"@;
        let whole = request_id_text(a);
        assert(decimal_text(a) =~= whole.subrange(prefix.len() as int, whole.len() as int));
        assert(decimal_text(b) =~= whole.subrange(prefix.len() as int, whole.len() as int));
        lemma_decimal_text_injective(a, b);
    }
}

/// Hands out request identifiers, each one once.
#[derive(Debug)]
pub struct RequestIdSource {
    next: u64,
}

impl RequestIdSource {
    /// How many identifiers this source has handed out.
    pub closed spec fn issued(&self) -> nat {
        self.next as nat
    }

    /// Whether every identifier that this source can hand out is gone.
    pub open spec fn is_exhausted(&self) -> bool {
        self.issued() >= u64::MAX
    }

    /// A source that has handed out nothing yet.
    pub fn new() -> (source: RequestIdSource)
        ensures
            source.issued() == 0,
    {
        RequestIdSource { next: 0 }
    }

    /// A source that goes on after `issued` identifiers were handed out.
    pub fn resuming_after(issued: u64) -> (source: RequestIdSource)
        ensures
            source.issued() == issued,
    {
        RequestIdSource { next: issued }
    }

    /// Whether every identifier that this source can hand out is gone.
    pub fn exhausted(&self) -> (gone: bool)
        ensures
            gone == self.is_exhausted(),
    {
        self.next == u64::MAX
    }

    /// Hands out the next identifier; it differs from every identifier that
    /// this source handed out before.
    pub fn fresh(&mut self) -> (id: String)
        requires
            !old(self).is_exhausted(),
        ensures
            id@ == request_id_text(old(self).issued()),
            final(self).issued() == old(self).issued() + 1,
    {
        let mut id: String = "request_".to_owned();
        append_decimal(&mut id, self.next);
        self.next = self.next + 1;
        id
    }
}

} // verus!
