//! Messages of a session: storing them once, and what a title is made from.
use crate::error::SessionStoreError;
use crate::ids::{is_prefixed_id, prefixed_id};
use crate::input_columns::law_title_documents;
use crate::json::{array_document, json_array, json_equal, json_items, same_document};
use crate::model::{SessionExecution, SessionMessageInput, ThreadKey, Timestamp};
use crate::ordering::{in_order, order_by_time};
use crate::rows::{message_parts, SessionMessageRow, SessionRow};
use crate::text::same_text;
use serde_json::Value;
use vstd::prelude::*;

verus! {

/// A server-generated message ID is prepared before entering the transaction
/// so the persisted message IDs and the input-delivery payload are identical.
#[derive(Clone, Debug)]
pub struct PreparedSessionMessage {
    pub message_id: String,
    pub input: SessionMessageInput,
}

/// Result of deciding, while holding the per-session lifecycle lock, whether
/// messages can be persisted without a sandbox-input delivery. Terminal
/// executions deliberately do not create an input obligation.
#[derive(Clone, Debug)]
pub enum AppendMessagesWithoutActiveExecution {
    Appended(Vec<String>),
    Active(SessionExecution),
}

/// The row that stands under a message's client id once it was inserted, or was
/// found there.
#[derive(Clone, Debug)]
pub struct PersistedPreparedMessageRow {
    pub message_id: String,
    pub role: String,
    pub parts: Value,
    pub metadata: Value,
}

/// A message to be inserted.
#[derive(Clone, Debug)]
pub struct NewSessionMessage {
    pub message_id: String,
    pub thread_key: String,
    pub client_message_id: Option<String>,
    pub role: String,
    pub parts: Value,
    pub metadata: Value,
}

/// The persisted row is the message: same author, same parts, same metadata.
pub open spec fn is_message(row: PersistedPreparedMessageRow, input: SessionMessageInput) -> bool {
    &&& row.role@ == input.role.name@
    &&& json_equal(row.parts, json_array(input.parts@))
    &&& json_equal(row.metadata, input.metadata)
}

fn copy_documents(list: &Vec<Value>) -> (copy: Vec<Value>)
    ensures
        copy@ == list@,
{
    let mut copy: Vec<Value> = Vec::new();
    let mut i: usize = 0;
    while i < list.len()
        invariant
            i <= list.len(),
            copy@ == list@.take(i as int),
        decreases list.len() - i,
    {
        copy.push(list[i].clone());
        i += 1;
        assert(list@.take(i as int) =~= list@.take(i - 1).push(list@[i - 1]));
    }
    assert(list@.take(i as int) =~= list@);
    copy
}

/// The row of a message under an id: its parts are one array document.
pub open spec fn message_row(
    message_id: String,
    thread_key: String,
    input: SessionMessageInput,
) -> NewSessionMessage {
    NewSessionMessage {
        message_id,
        thread_key,
        client_message_id: input.client_message_id,
        role: input.role.name,
        parts: json_array(input.parts@),
        metadata: input.metadata,
    }
}

/// Makes the row of a message.
pub fn new_session_message(
    message_id: &String,
    thread_key: &String,
    input: &SessionMessageInput,
) -> (new: NewSessionMessage)
    ensures
        new == message_row(*message_id, *thread_key, *input),
{
    NewSessionMessage {
        message_id: message_id.clone(),
        thread_key: thread_key.clone(),
        client_message_id: crate::text::copy_opt(&input.client_message_id),
        role: input.role.name.clone(),
        parts: array_document(copy_documents(&input.parts)),
        metadata: input.metadata.clone(),
    }
}

/// Makes the rows of a list of messages, in their order, each under a fresh id.
pub fn append_messages(thread_key: &ThreadKey, messages: &Vec<SessionMessageInput>) -> (rows: Vec<
    NewSessionMessage,
>)
    ensures
        rows@.len() == messages@.len(),
        forall|i: int|
            0 <= i < messages@.len() ==> is_prefixed_id((#[trigger] rows@[i]).message_id@, "msg"@)
                && rows@[i] == message_row(
                rows@[i].message_id,
                thread_key.value,
                messages@[i],
            ),
{
    let mut rows: Vec<NewSessionMessage> = Vec::new();
    let mut i: usize = 0;
    while i < messages.len()
        invariant
            i <= messages.len(),
            rows@.len() == i,
            forall|j: int|
                0 <= j < i ==> is_prefixed_id((#[trigger] rows@[j]).message_id@, "msg"@)
                    && rows@[j] == message_row(
                    rows@[j].message_id,
                    thread_key.value,
                    messages@[j],
                ),
        decreases messages.len() - i,
    {
        let message_id = prefixed_id("msg");
        rows.push(new_session_message(&message_id, &thread_key.value, &messages[i]));
        i += 1;
    }
    rows
}

/// The persisted row is the one that was made of the message.
pub open spec fn stored_as(row: PersistedPreparedMessageRow, input: SessionMessageInput) -> bool {
    &&& row.role@ == input.role.name@
    &&& row.parts == json_array(input.parts@)
    &&& row.metadata == input.metadata
}

fn is_persisted_message(row: &PersistedPreparedMessageRow, input: &SessionMessageInput) -> (is: bool)
    ensures
        is == is_message(*row, *input),
        stored_as(*row, *input) ==> is,
{
    let parts = array_document(copy_documents(&input.parts));
    same_text(row.role.as_str(), input.role.as_ref()) && same_document(&row.parts, &parts)
        && same_document(&row.metadata, &input.metadata)
}

/// Accepts the rows that stand for a list of prepared messages, one row each: a
/// client id that was used for another message is a conflict, and the same message
/// stored again is none. Answers with the ids under which the messages are stored.
pub fn persist_prepared_messages(
    messages: &Vec<PreparedSessionMessage>,
    persisted: &Vec<PersistedPreparedMessageRow>,
) -> (ids: Result<Vec<String>, SessionStoreError>)
    requires
        persisted@.len() == messages@.len(),
    ensures
        if forall|i: int|
            0 <= i < messages@.len() ==> is_message(
                #[trigger] persisted@[i],
                messages@[i].input,
            ) {
            ids matches Ok(list) && list@ == persisted@.map_values(
                |row: PersistedPreparedMessageRow| row.message_id,
            )
        } else {
            ids == Err::<Vec<String>, SessionStoreError>(
                SessionStoreError::InputDeliveryIdempotencyConflict,
            )
        },
        (forall|i: int|
            0 <= i < messages@.len() ==> stored_as(#[trigger] persisted@[i], messages@[i].input))
            ==> ids is Ok,
        ids matches Ok(list) ==> {
            &&& list@.len() == messages@.len()
            &&& forall|i: int|
                0 <= i < messages@.len() ==> (#[trigger] list@[i]) == persisted@[i].message_id
            &&& forall|i: int|
                0 <= i < messages@.len() ==> (#[trigger] persisted@[i]).role@
                    == messages@[i].input.role.name@
        },
{
    let mut ids: Vec<String> = Vec::new();
    let mut i: usize = 0;
    while i < messages.len()
        invariant
            i <= messages.len(),
            persisted@.len() == messages@.len(),
            forall|j: int|
                0 <= j < i ==> is_message(#[trigger] persisted@[j], messages@[j].input),
            ids@ == persisted@.take(i as int).map_values(
                |row: PersistedPreparedMessageRow| row.message_id,
            ),
        decreases messages.len() - i,
    {
        if !is_persisted_message(&persisted[i], &messages[i].input) {
            assert(!is_message(persisted@[i as int], messages@[i as int].input));
            return Err(SessionStoreError::InputDeliveryIdempotencyConflict);
        }
        ids.push(persisted[i].message_id.clone());
        i += 1;
        assert(persisted@.take(i as int) =~= persisted@.take(i - 1).push(persisted@[i - 1]));
        assert(ids@ =~= persisted@.take(i as int).map_values(
            |row: PersistedPreparedMessageRow| row.message_id,
        ));
    }
    assert(persisted@.take(i as int) =~= persisted@);
    Ok(ids)
}

/// The parts of a list of documents, one behind the other.
pub open spec fn all_parts(documents: Seq<Value>) -> Seq<Value>
    decreases documents.len(),
{
    if documents.len() == 0 {
        Seq::empty()
    } else {
        all_parts(documents.drop_last()) + json_items(documents.last())
    }
}

/// The session has no title yet.
pub open spec fn untitled(session: Option<SessionRow>) -> bool {
    session matches Some(row) && row.title is None
}

/// A message is one of the session by an author of the given role.
pub open spec fn is_written_by(
    message: SessionMessageRow,
    session: Option<SessionRow>,
    role: Seq<char>,
) -> bool {
    session matches Some(row) && message.thread_key@ == row.thread_key@ && message.role@ == role
}

/// The documents of the messages of the session by authors of the role, in the order
/// of their time.
pub open spec fn documents_of(
    messages: Seq<SessionMessageRow>,
    session: Option<SessionRow>,
    role: Seq<char>,
) -> Seq<Value> {
    in_order(
        messages.filter(|m: SessionMessageRow| is_written_by(m, session, role)).map_values(
            |m: SessionMessageRow| (m.created_at, m.parts),
        ),
    ).map_values(|d: (Timestamp, Value)| d.1)
}

/// What a title is made from: the parts of all messages that users wrote to a session
/// without a title, in the order of their time, or nothing if there is no such
/// message. Messages of one time stay in the order given.
pub fn title_generation_candidate(
    session: &Option<SessionRow>,
    messages: Vec<SessionMessageRow>,
    user_role: &str,
) -> (parts: Option<Vec<Value>>)
    ensures
        match parts {
            None => !untitled(*session) || documents_of(messages@, *session, user_role@).len()
                == 0,
            Some(list) => untitled(*session) && documents_of(
                messages@,
                *session,
                user_role@,
            ).len() > 0 && list@ == all_parts(documents_of(messages@, *session, user_role@)),
        },
        session is None || session->0.title is Some ==> parts is None,
        parts matches Some(_) ==> session is Some && session->0.title is None && exists|i: int|
            0 <= i < messages@.len()
                && (#[trigger] messages@[i]).thread_key@ == session->0.thread_key@
                && messages@[i].role@ == user_role@,
        (exists|i: int|
            0 <= i < messages@.len() && session is Some && (#[trigger] messages@[i]).thread_key@
                == session->0.thread_key@ && messages@[i].role@ == user_role@)
            && session->0.title is None ==> parts is Some,
{
    let ghost given = messages@;
    proof {
        if session is Some {
            law_title_documents(
                given,
                session->0,
                user_role@,
                Seq::empty(),
                documents_of(given, *session, user_role@)[0],
            );
        }
    }
    let row = match session {
        None => return None,
        Some(row) => row,
    };
    if row.title.is_some() {
        return None;
    }
    let ghost written = |m: SessionMessageRow| is_written_by(m, *session, user_role@);
    let ghost timed = |m: SessionMessageRow| (m.created_at, m.parts);
    let ghost all = messages@;
    let mut found: Vec<(Timestamp, Value)> = Vec::new();
    proof {
        reveal(Seq::filter);
        assert(all.take(0).filter(written) =~= Seq::<SessionMessageRow>::empty());
    }
    for one in iter: messages
        invariant
            all == messages@,
            iter.seq() == all,
            *session == Some(*row),
            written == (|m: SessionMessageRow| is_written_by(m, *session, user_role@)),
            timed == (|m: SessionMessageRow| (m.created_at, m.parts)),
            found@ == all.take(iter.index()).filter(written).map_values(timed),
    {
        proof {
            let n = iter.index();
            assert(one == all[n]);
            reveal(Seq::filter);
            assert(all.take(n + 1).drop_last() =~= all.take(n));
            assert(all.take(n + 1).last() == one);
        }
        if same_text(one.thread_key.as_str(), row.thread_key.as_str()) && same_text(
            one.role.as_str(),
            user_role,
        ) {
            found.push((one.created_at, one.parts));
        }
        assert(found@ =~= all.take(iter.index() + 1).filter(written).map_values(timed));
    }
    assert(all.take(all.len() as int) =~= all);
    let ordered = order_by_time(found);
    let ghost documents = ordered@.map_values(|d: (Timestamp, Value)| d.1);
    assert(documents == documents_of(all, *session, user_role@));
    if ordered.len() == 0 {
        return None;
    }
    let mut parts: Vec<Value> = Vec::new();
    assert(documents.take(0) =~= Seq::<Value>::empty());
    for one in iter: ordered
        invariant
            iter.seq() == ordered@,
            documents == ordered@.map_values(|d: (Timestamp, Value)| d.1),
            parts@ == all_parts(documents.take(iter.index())),
    {
        proof {
            let n = iter.index();
            assert(one == ordered@[n]);
            assert(documents.take(n + 1).drop_last() =~= documents.take(n));
            assert(documents.take(n + 1).last() == one.1);
        }
        let mut items = message_parts(one.1);
        parts.append(&mut items);
    }
    assert(documents.take(documents.len() as int) =~= documents);
    Some(parts)
}

} // verus!
