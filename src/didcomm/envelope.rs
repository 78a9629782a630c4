use vstd::prelude::*;

use crate::didcomm::json::{is_json, json_valid, nesting_within_limit, within_nesting_limit};
use crate::errors::NodeXError;
use crate::keyring::mnemonic::copy_string;

verus! {

/// Format tag of the attachment that carries a message's metadata.
pub const METADATA_FORMAT: &'static str = "metadata";

/// Informational link written into every metadata attachment.
pub const METADATA_LINK: &'static str = "https://did.getnodex.io";

/// An attachment of an outbound envelope, its data inlined as JSON text.
pub struct Attachment {
    pub id: String,
    pub format: String,
    pub link: String,
    pub json: String,
}

/// An outbound DIDComm message before it is serialized or signed: sender,
/// recipients, credential body (JSON text) and at most one attachment.
pub struct Envelope {
    pub from: String,
    pub to: Vec<String>,
    pub body: String,
    pub attachment: Option<Attachment>,
}

/// An attachment as a receiver reads it: its format tag, inlined JSON and
/// id, any of which may be absent, and its links.
pub struct ReceivedAttachment {
    pub format: Option<String>,
    pub json: Option<String>,
    pub id: Option<String>,
    pub links: Vec<String>,
}

/// An inbound message as a receiver reads it: sender, recipients, body
/// text and attachments.
pub struct ReceivedMessage {
    pub from: Option<String>,
    pub to: Vec<String>,
    pub body: String,
    pub attachments: Vec<ReceivedAttachment>,
}

/// What a successful verification recovers: the credential body and the
/// metadata, both as JSON text.
pub struct VerifiedContainer {
    pub message: String,
    pub metadata: Option<String>,
}

pub open spec fn opt_view(o: Option<String>) -> Option<Seq<char>> {
    match o {
        Some(s) => Some(s@),
        None => None,
    }
}

/// (format, json, id, links) of each attachment.
pub type AttachmentView = (Option<Seq<char>>, Option<Seq<char>>, Option<Seq<char>>, Seq<Seq<char>>);

/// (body, attachments, sender, recipients) of a message as a receiver reads it.
pub type MessageView = (Seq<char>, Seq<AttachmentView>, Option<Seq<char>>, Seq<Seq<char>>);

pub open spec fn attachments_view(a: Seq<ReceivedAttachment>) -> Seq<AttachmentView> {
    a.map_values(
        |x: ReceivedAttachment| (opt_view(x.format), opt_view(x.json), opt_view(x.id), x.links.deep_view()),
    )
}

/// The inlined data of the first attachment tagged as metadata (itself
/// possibly absent), or none when no attachment has that tag.
pub open spec fn metadata_attachment(atts: Seq<AttachmentView>) -> Option<Option<Seq<char>>>
    decreases atts.len(),
{
    if atts.len() == 0 {
        None
    } else if atts[0].0 == Some(METADATA_FORMAT@) {
        Some(atts[0].1)
    } else {
        metadata_attachment(atts.drop_first())
    }
}

/// What opening a received message yields: its body and the metadata of its
/// first metadata attachment, each of which must be JSON.
pub open spec fn spec_open(body: Seq<char>, atts: Seq<AttachmentView>) -> Result<(Seq<char>, Option<Seq<char>>), NodeXError> {
    if !json_valid(body) {
        Err(NodeXError::Protocol)
    } else {
        match metadata_attachment(atts) {
            None => Ok((body, None)),
            Some(None) => Err(NodeXError::Protocol),
            Some(Some(j)) => if json_valid(j) {
                Ok((body, Some(j)))
            } else {
                Err(NodeXError::Protocol)
            },
        }
    }
}

/// The attachments that a receiver reads from an envelope built with
/// `metadata` and attachment id `id`.
pub open spec fn sent_attachments(metadata: Option<Seq<char>>, id: Seq<char>) -> Seq<AttachmentView> {
    match metadata {
        Some(m) => seq![(Some(METADATA_FORMAT@), Some(m), Some(id), seq![METADATA_LINK@])],
        None => Seq::empty(),
    }
}

/// The id of an envelope's attachment (empty when it has none).
pub open spec fn attachment_id_of(env: Envelope) -> Seq<char> {
    match env.attachment {
        Some(a) => a.id@,
        None => Seq::empty(),
    }
}

pub open spec fn container_view(c: VerifiedContainer) -> (Seq<char>, Option<Seq<char>>) {
    (c.message@, opt_view(c.metadata))
}

pub open spec fn opt_str_view(o: Option<&str>) -> Option<Seq<char>> {
    match o {
        Some(s) => Some(s@),
        None => None,
    }
}

/// Whether `env` goes from `from` to `to` alone, carries `body` (JSON, nested
/// within the limit), and carries `metadata` (JSON), when given, in one
/// metadata attachment with the fixed link.
pub open spec fn envelope_carries(
    env: Envelope,
    from: Seq<char>,
    to: Seq<char>,
    body: Seq<char>,
    metadata: Option<Seq<char>>,
) -> bool {
    &&& env.from@ == from
    &&& to.len() > 0
    &&& env.to@.len() == 1 && env.to@[0]@ == to
    &&& env.body@ == body
    &&& match metadata {
        None => env.attachment is None,
        Some(m) => env.attachment matches Some(a) && a.format@ == METADATA_FORMAT@ && a.link@
            == METADATA_LINK@ && a.json@ == m,
    }
    &&& env.received_view() == (body, sent_attachments(metadata, attachment_id_of(env)))
    &&& json_valid(body)
    &&& nesting_within_limit(body)
    &&& metadata matches Some(m) ==> json_valid(m)
}

/// The text that serde_json writes for the JSON value that `text` parses to.
pub uninterp spec fn json_normalized(text: Seq<char>) -> Seq<char>;

/// Body, attachments, sender and recipients that didcomm_rs reads from a
/// received message text, if it accepts the text as a plain message.
pub uninterp spec fn didcomm_received(text: Seq<char>) -> Option<MessageView>;

/// What a receiver reads from the serialized `env`. The body value is
/// written into the message and parsed back, and the receiver writes it out
/// again: twice what serde_json writes for a parsed text. The attachments'
/// format and JSON, the sender and the recipients are strings and come back
/// as they were built; an attachment's id and link are not read back.
pub open spec fn delivered(env: Envelope) -> MessageView {
    (json_normalized(json_normalized(env.body@)), env.received_view().1, Some(env.from@), env.to.deep_view())
}

/// Relies on didcomm_rs::Message::as_raw_json, on a message built with
/// Message::new, from, to, body (which parses the body as JSON and panics
/// otherwise) and apeend_attachment: serde_json writes the message (which
/// cannot fail: all its maps have string keys), and Message::receive parses
/// it back; the body nests well within serde_json's recursion limit, and the
/// one recipient is not empty (Message::to drops empty recipients).
#[verifier::external_body]
pub(crate) fn raw_json(env: &Envelope) -> (r: Option<String>)
    requires
        env.to@.len() == 1,
        env.to@[0]@.len() > 0,
        json_valid(env.body@),
        nesting_within_limit(env.body@),
    ensures
        r is Some,
        r matches Some(s) ==> didcomm_received(s@) == Some(
            (
                json_normalized(json_normalized(env.body@)),
                env.received_view().1,
                Some(env.from@),
                env.to.deep_view(),
            ),
        ) && json_valid(json_normalized(json_normalized(env.body@))),
{
    let to: Vec<&str> = env.to.iter().map(|t| t.as_str()).collect();
    let mut m = didcomm_rs::Message::new().from(&env.from).to(&to).body(&env.body);
    if let Some(a) = &env.attachment {
        let data = didcomm_rs::AttachmentDataBuilder::new().with_link(&a.link).with_json(&a.json);
        m.apeend_attachment(
            didcomm_rs::AttachmentBuilder::new(true).with_id(&a.id).with_format(&a.format).with_data(data),
        );
    }
    m.as_raw_json().ok()
}

/// Relies on didcomm_rs::Message::receive (no keys), Message::get_body,
/// Message::get_attachments and Message::get_didcomm_header: what a plain
/// message text holds.
#[verifier::external_body]
pub(crate) fn receive_plain(text: &str) -> (r: Option<ReceivedMessage>)
    ensures
        r matches Some(m) ==> didcomm_received(text@) == Some(m.message_view()),
        r is None ==> didcomm_received(text@) is None,
{
    let m = didcomm_rs::Message::receive(text, None, None, None).ok()?;
    let attachments = m.get_attachments().map(
        |a| ReceivedAttachment {
            format: a.format.clone(),
            json: a.data.json.clone(),
            id: a.id.clone(),
            links: a.data.links.clone(),
        },
    ).collect();
    let header = m.get_didcomm_header();
    Some(ReceivedMessage { from: header.from.clone(), to: header.to.clone(), body: m.get_body().ok()?, attachments })
}

/// Relies on cuid::cuid2: a fresh collision-resistant identifier.
#[verifier::external_body]
pub(crate) fn new_attachment_id() -> (r: String) {
    cuid::cuid2()
}

proof fn lemma_metadata_attachment_skip(atts: Seq<AttachmentView>, i: int)
    requires
        0 <= i < atts.len(),
        atts[i].0 != Some(METADATA_FORMAT@),
    ensures
        metadata_attachment(atts.subrange(i, atts.len() as int)) == metadata_attachment(
            atts.subrange(i + 1, atts.len() as int),
        ),
{
    assert(atts.subrange(i, atts.len() as int).drop_first() =~= atts.subrange(i + 1, atts.len() as int));
}

/// Builds the envelope from `from_did` to `to_did` that carries `body` and,
/// when given, `metadata` in one attachment with id `attachment_id`. The
/// recipient must not be empty, both texts must be JSON, and the body must
/// nest within the limit.
pub fn build_envelope(
    from_did: &str,
    to_did: &str,
    body: &str,
    metadata: Option<&str>,
    attachment_id: &str,
) -> (r: Result<Envelope, NodeXError>)
    ensures
        r.is_ok() <==> to_did@.len() > 0 && json_valid(body@) && nesting_within_limit(body@) && (
        metadata matches Some(m) ==> json_valid(m@)),
        r matches Err(e) ==> e == NodeXError::Protocol,
        r matches Ok(env) ==> envelope_carries(env, from_did@, to_did@, body@, opt_str_view(metadata))
            && (env.attachment matches Some(a) ==> a.id@ == attachment_id@),
{
    if to_did.is_empty() || !is_json(body) || !within_nesting_limit(body) {
        return Err(NodeXError::Protocol);
    }
    let attachment = match metadata {
        Some(m) => {
            if !is_json(m) {
                return Err(NodeXError::Protocol);
            }
            Some(
                Attachment {
                    id: attachment_id.to_owned(),
                    format: METADATA_FORMAT.to_owned(),
                    link: METADATA_LINK.to_owned(),
                    json: m.to_owned(),
                },
            )
        },
        None => None,
    };
    let mut to: Vec<String> = Vec::new();
    to.push(to_did.to_owned());
    let env = Envelope { from: from_did.to_owned(), to, body: body.to_owned(), attachment };
    proof {
        match metadata {
            Some(m) => {
                assert(env.received_view().1 =~= sent_attachments(Some(m@), attachment_id@));
            },
            None => {
                assert(env.received_view().1 =~= sent_attachments(None, attachment_id_of(env)));
            },
        }
    }
    Ok(env)
}

impl Envelope {
    /// Body and (format, json, id, links) of each attachment, as a receiver
    /// reads them.
    pub open spec fn received_view(&self) -> (Seq<char>, Seq<AttachmentView>) {
        (
            self.body@,
            match self.attachment {
                Some(a) => seq![(Some(a.format@), Some(a.json@), Some(a.id@), seq![a.link@])],
                None => Seq::empty(),
            },
        )
    }
}

impl ReceivedMessage {
    pub open spec fn received_view(&self) -> (Seq<char>, Seq<AttachmentView>) {
        (self.body@, attachments_view(self.attachments@))
    }

    pub open spec fn message_view(&self) -> MessageView {
        (self.body@, attachments_view(self.attachments@), opt_view(self.from), self.to.deep_view())
    }
}

/// Recovers the body and metadata of a received message: the body must be
/// JSON, and the first attachment tagged as metadata, if any, must inline
/// JSON; later ones are ignored.
pub fn open_message(message: &ReceivedMessage) -> (r: Result<VerifiedContainer, NodeXError>)
    ensures
        r.is_ok() <==> spec_open(message.received_view().0, message.received_view().1).is_ok(),
        r matches Ok(c) ==> spec_open(message.received_view().0, message.received_view().1) == Ok::<
            (Seq<char>, Option<Seq<char>>),
            NodeXError,
        >(container_view(c)),
        r matches Err(e) ==> e == NodeXError::Protocol,
{
    let ghost atts = message.received_view().1;
    let tag = METADATA_FORMAT.to_owned();
    let mut found: Option<&ReceivedAttachment> = None;
    let mut i: usize = 0;
    assert(atts.subrange(0, atts.len() as int) =~= atts);
    while i < message.attachments.len()
        invariant
            i <= message.attachments.len(),
            atts == attachments_view(message.attachments@),
            atts.len() == message.attachments.len(),
            tag@ == METADATA_FORMAT@,
            found is None ==> metadata_attachment(atts) == metadata_attachment(
                atts.subrange(i as int, atts.len() as int),
            ),
            found matches Some(a) ==> metadata_attachment(atts) == Some(opt_view(a.json)),
        decreases message.attachments.len() - i,
    {
        if found.is_none() {
            let a = &message.attachments[i];
            let is_metadata = match &a.format {
                Some(f) => *f == tag,
                None => false,
            };
            if is_metadata {
                assert(atts.subrange(i as int, atts.len() as int)[0] == atts[i as int]);
                found = Some(a);
            } else {
                proof {
                    lemma_metadata_attachment_skip(atts, i as int);
                }
            }
        }
        i = i + 1;
    }
    assert(atts.subrange(atts.len() as int, atts.len() as int) =~= Seq::<AttachmentView>::empty());
    if !is_json(message.body.as_str()) {
        return Err(NodeXError::Protocol);
    }
    let metadata = match found {
        Some(a) => match &a.json {
            Some(json) => {
                if !is_json(json.as_str()) {
                    return Err(NodeXError::Protocol);
                }
                Some(copy_string(json))
            },
            None => return Err(NodeXError::Protocol),
        },
        None => None,
    };
    Ok(VerifiedContainer { message: copy_string(&message.body), metadata })
}

/// What verifying a plain message text yields.
pub open spec fn spec_verify_plain(text: Seq<char>) -> Result<(Seq<char>, Option<Seq<char>>), NodeXError> {
    match didcomm_received(text) {
        None => Err(NodeXError::Protocol),
        Some(m) => spec_open(m.0, m.1),
    }
}

/// Whether `text` is a serialization of an envelope that goes from `from`
/// to `to` and carries `body` and `metadata`.
pub open spec fn sent_as(
    text: Seq<char>,
    from: Seq<char>,
    to: Seq<char>,
    body: Seq<char>,
    metadata: Option<Seq<char>>,
) -> bool {
    exists|env: Envelope|
        #![trigger delivered(env)]
        envelope_carries(env, from, to, body, metadata) && didcomm_received(text) == Some(delivered(env))
            && json_valid(delivered(env).0)
}

/// Verifying what generating produced gives back the body (the same JSON
/// value, as serde_json writes it) and exactly the metadata text it was
/// given; the receiver reads the sender and the one recipient it was sent to.
pub proof fn lemma_round_trip(
    text: Seq<char>,
    from: Seq<char>,
    to: Seq<char>,
    body: Seq<char>,
    metadata: Option<Seq<char>>,
)
    requires
        sent_as(text, from, to, body, metadata),
    ensures
        spec_verify_plain(text) == Ok::<(Seq<char>, Option<Seq<char>>), NodeXError>(
            (json_normalized(json_normalized(body)), metadata),
        ),
        didcomm_received(text) matches Some(m) && m.2 == Some(from) && m.3 == seq![to] && (
        metadata is Some ==> m.1.len() == 1 && m.1[0].2 is Some && m.1[0].3 == seq![METADATA_LINK@]),
{
    let env = choose|env: Envelope|
        #![trigger delivered(env)]
        envelope_carries(env, from, to, body, metadata) && didcomm_received(text) == Some(delivered(env))
            && json_valid(delivered(env).0);
    assert(env.to.deep_view() =~= seq![to]);
    match metadata {
        Some(m) => {
            assert(delivered(env).1[0].0 == Some(METADATA_FORMAT@));
        },
        None => {},
    }
}

} // verus!
