//! The classifier of the change log: from a mutation record of the store to
//! the notification that tells connected clients about it, or to nothing.

use crate::document::{
    empty_document, empty_view, is_empty, has_no_member, set_text_member, text_at, text_member,
    view_of, with_text, Document, DocumentView,
};
use crate::sockets::messages::{BroadcastMessage, NotificationView};
use crate::text::{
    begins_with, find_char, first_index_of, lemma_first_index_is, same_text, starts_with,
    tail_from, text_after,
};
use vstd::prelude::*;
use vstd::string::StringExecFns;

verus! {

/// What a mutation did to its record.
#[derive(Debug, Clone, Copy, PartialEq, Eq, Structural)]
pub enum Operation {
    Created,
    Updated,
    Deleted,
}

/// The kinds of entity whose changes are announced.
#[derive(Debug, Clone, Copy, PartialEq, Eq, Structural)]
pub enum EntityKind {
    Project,
    Block,
    Image,
    Annotation,
    Class,
}

/// Why a record could not be classified.
#[derive(Debug, Clone, Copy, PartialEq, Eq, Structural)]
pub enum RecordError {
    /// The image that counts holds no primary key that is a string.
    MissingKey,
    /// The image that counts could not be read as a document.
    UndecodableImage,
}

/// An image of a row as the log carries it.
#[derive(Debug, Clone, PartialEq)]
pub enum RowImage {
    /// The log carries no such image.
    Absent,
    /// The log carries one, but it is no document.
    Undecodable,
    /// The row as a document.
    Present(Document),
}

/// An image of a row as contracts see it.
pub enum ImageView {
    Absent,
    Undecodable,
    Present(DocumentView),
}

impl View for RowImage {
    type V = ImageView;

    open spec fn view(&self) -> ImageView {
        match self {
            RowImage::Absent => ImageView::Absent,
            RowImage::Undecodable => ImageView::Undecodable,
            RowImage::Present(d) => ImageView::Present(view_of(*d)),
        }
    }
}

/// One record of the change log: the event's name and the images of the row
/// before and after the mutation.
#[derive(Debug, Clone, PartialEq)]
pub struct MutationRecord {
    /// `INSERT`, `MODIFY` or `REMOVE`; anything else is not announced.
    pub event_name: String,
    /// The row before the mutation.
    pub before_image: RowImage,
    /// The row after the mutation.
    pub after_image: RowImage,
}

/// A mutation record as contracts see it.
pub struct RecordView {
    pub event_name: Seq<char>,
    pub before_image: ImageView,
    pub after_image: ImageView,
}

impl View for MutationRecord {
    type V = RecordView;

    open spec fn view(&self) -> RecordView {
        RecordView {
            event_name: self.event_name@,
            before_image: self.before_image@,
            after_image: self.after_image@,
        }
    }
}

/// The operation that an event name of the log stands for.
pub open spec fn operation_of(event_name: Seq<char>) -> Option<Operation> {
    if event_name == "INSERT"@ {
        Some(Operation::Created)
    } else if event_name == "MODIFY"@ {
        Some(Operation::Updated)
    } else if event_name == "REMOVE"@ {
        Some(Operation::Deleted)
    } else {
        None
    }
}

/// The prefix that the keys of an entity kind begin with.
pub open spec fn key_prefix(kind: EntityKind) -> Seq<char> {
    match kind {
        EntityKind::Project => "PROJECT#"@,
        EntityKind::Block => "BLOCK#"@,
        EntityKind::Image => "IMAGE#"@,
        EntityKind::Annotation => "ANNOTATION#"@,
        EntityKind::Class => "CLASS#"@,
    }
}

/// The prefix of the registry's own rows.
pub open spec fn connection_prefix() -> Seq<char> {
    "CONNECTION#"@
}

/// The entity kind that a key belongs to, by its prefix.
pub open spec fn entity_of(key: Seq<char>) -> Option<EntityKind> {
    if begins_with(key, key_prefix(EntityKind::Project)) {
        Some(EntityKind::Project)
    } else if begins_with(key, key_prefix(EntityKind::Block)) {
        Some(EntityKind::Block)
    } else if begins_with(key, key_prefix(EntityKind::Image)) {
        Some(EntityKind::Image)
    } else if begins_with(key, key_prefix(EntityKind::Annotation)) {
        Some(EntityKind::Annotation)
    } else if begins_with(key, key_prefix(EntityKind::Class)) {
        Some(EntityKind::Class)
    } else {
        None
    }
}

/// The word for an entity kind in a notification's tag.
pub open spec fn entity_word(kind: EntityKind) -> Seq<char> {
    match kind {
        EntityKind::Project => "project"@,
        EntityKind::Block => "block"@,
        EntityKind::Image => "image"@,
        EntityKind::Annotation => "annotation"@,
        EntityKind::Class => "class"@,
    }
}

/// The word for an operation in a notification's tag.
pub open spec fn operation_word(op: Operation) -> Seq<char> {
    match op {
        Operation::Created => "created"@,
        Operation::Updated => "updated"@,
        Operation::Deleted => "deleted"@,
    }
}

/// The tag of a notification: entity word, underscore, operation word.
pub open spec fn kind_text(kind: EntityKind, op: Operation) -> Seq<char> {
    entity_word(kind) + "_"@ + operation_word(op)
}

/// The identifier in a key: what follows the first `#`, or the whole key
/// where it holds no `#`.
pub open spec fn identifier_of(key: Seq<char>) -> Seq<char> {
    let at = first_index_of(key, '#');
    if at < key.len() {
        tail_from(key, at + 1)
    } else {
        key
    }
}

/// The image that counts: the one after the mutation unless it is absent
/// or has no member, else the one before.
pub open spec fn effective_image(r: RecordView) -> ImageView {
    match r.after_image {
        ImageView::Present(after) => if has_no_member(after) {
            r.before_image
        } else {
            r.after_image
        },
        ImageView::Undecodable => ImageView::Undecodable,
        ImageView::Absent => r.before_image,
    }
}

/// The primary key of a record: the string under `PK` in the image that
/// counts, or why there is none.
pub open spec fn record_key(r: RecordView) -> Result<Seq<char>, RecordError> {
    match effective_image(r) {
        ImageView::Present(image) => match text_at(image, "PK"@) {
            Some(key) => Ok(key),
            None => Err(RecordError::MissingKey),
        },
        ImageView::Undecodable => Err(RecordError::UndecodableImage),
        ImageView::Absent => Err(RecordError::MissingKey),
    }
}

/// Whether `key` is the primary key of the record.
pub open spec fn has_key(r: RecordView, key: Seq<char>) -> bool {
    record_key(r) == Ok::<Seq<char>, RecordError>(key)
}

/// What is sent along with a notification: for a deletion the identifier
/// alone, under `id`; otherwise the whole image after the mutation.
pub open spec fn payload_of(r: RecordView, op: Operation, key: Seq<char>) -> DocumentView {
    match op {
        Operation::Deleted => with_text(empty_view(), "id"@, identifier_of(key)),
        _ => match r.after_image {
            ImageView::Present(after) => after,
            _ => empty_view(),
        },
    }
}

/// The classification of a record: an error where it has no key or the
/// image that counts cannot be read; nothing
/// where the key is the registry's, the event name is unknown or the key is
/// of no announced kind; otherwise the notification.
pub open spec fn classification(r: RecordView) -> Result<Option<NotificationView>, RecordError> {
    match record_key(r) {
        Err(e) => Err(e),
        Ok(key) => if begins_with(key, connection_prefix()) {
            Ok(None)
        } else {
            match (operation_of(r.event_name), entity_of(key)) {
                (Some(op), Some(kind)) => Ok(
                    Some(
                        NotificationView {
                            kind: kind_text(kind, op),
                            payload: payload_of(r, op, key),
                        },
                    ),
                ),
                _ => Ok(None),
            }
        },
    }
}

/// The outcome of a classification as contracts see it.
pub open spec fn outcome_view(outcome: Result<Option<BroadcastMessage>, RecordError>) -> Result<
    Option<NotificationView>,
    RecordError,
> {
    match outcome {
        Ok(Some(message)) => Ok(Some(message@)),
        Ok(None) => Ok(None),
        Err(e) => Err(e),
    }
}

/// The classifications of the records of a batch, one for one.
pub open spec fn batch_classification(records: Seq<RecordView>) -> Seq<
    Result<Option<NotificationView>, RecordError>,
> {
    Seq::new(records.len(), |i: int| classification(records[i]))
}

/// Reads the operation out of an event name of the log.
pub fn parse_operation(event_name: &str) -> (op: Option<Operation>)
    ensures
        op == operation_of(event_name@),
{
    if same_text(event_name, "INSERT") {
        Some(Operation::Created)
    } else if same_text(event_name, "MODIFY") {
        Some(Operation::Updated)
    } else if same_text(event_name, "REMOVE") {
        Some(Operation::Deleted)
    } else {
        None
    }
}

/// Finds the entity kind of a key by its prefix.
pub fn entity_kind_of(key: &str) -> (kind: Option<EntityKind>)
    ensures
        kind == entity_of(key@),
{
    if starts_with(key, "PROJECT#") {
        Some(EntityKind::Project)
    } else if starts_with(key, "BLOCK#") {
        Some(EntityKind::Block)
    } else if starts_with(key, "IMAGE#") {
        Some(EntityKind::Image)
    } else if starts_with(key, "ANNOTATION#") {
        Some(EntityKind::Annotation)
    } else if starts_with(key, "CLASS#") {
        Some(EntityKind::Class)
    } else {
        None
    }
}

/// Builds the tag of a notification.
pub fn kind_name(kind: EntityKind, op: Operation) -> (name: String)
    ensures
        name@ == kind_text(kind, op),
{
    let entity = match kind {
        EntityKind::Project => "project",
        EntityKind::Block => "block",
        EntityKind::Image => "image",
        EntityKind::Annotation => "annotation",
        EntityKind::Class => "class",
    };
    let operation = match op {
        Operation::Created => "created",
        Operation::Updated => "updated",
        Operation::Deleted => "deleted",
    };
    let mut name = String::from_str(entity);
    name.append("_");
    name.append(operation);
    name
}

/// Takes the identifier out of a key: the text after the first `#`, or the
/// whole key where it has none.
pub fn extract_id_from_pk(pk: &str) -> (id: String)
    ensures
        id@ == identifier_of(pk@),
{
    match find_char(pk, '#') {
        Some(at) => text_after(pk, at + 1),
        None => String::from_str(pk),
    }
}

/// Classifies one record of the change log.
pub fn classify_record(record: &MutationRecord) -> (outcome: Result<
    Option<BroadcastMessage>,
    RecordError,
>)
    ensures
        outcome_view(outcome) == classification(record@),
{
    let image = match &record.after_image {
        RowImage::Present(after) => if is_empty(after) {
            &record.before_image
        } else {
            &record.after_image
        },
        RowImage::Undecodable => &record.after_image,
        RowImage::Absent => &record.before_image,
    };
    let key = match image {
        RowImage::Present(document) => match text_member(document, "PK") {
            Some(key) => key,
            None => {
                return Err(RecordError::MissingKey);
            },
        },
        RowImage::Undecodable => {
            return Err(RecordError::UndecodableImage);
        },
        RowImage::Absent => {
            return Err(RecordError::MissingKey);
        },
    };
    if starts_with(key.as_str(), "CONNECTION#") {
        return Ok(None);
    }
    let op = match parse_operation(record.event_name.as_str()) {
        Some(op) => op,
        None => {
            return Ok(None);
        },
    };
    let kind = match entity_kind_of(key.as_str()) {
        Some(kind) => kind,
        None => {
            return Ok(None);
        },
    };
    let data = match op {
        Operation::Deleted => {
            let id = extract_id_from_pk(key.as_str());
            let mut data = empty_document();
            set_text_member(&mut data, "id", id.as_str());
            data
        },
        _ => match &record.after_image {
            RowImage::Present(after) => after.clone(),
            _ => empty_document(),
        },
    };
    Ok(Some(BroadcastMessage { kind: kind_name(kind, op), data }))
}

/// Classifies the records of a batch in the order given. Every record gets
/// its own outcome: one that cannot be classified fails alone.
pub fn classify_batch(records: &Vec<MutationRecord>) -> (outcomes: Vec<
    Result<Option<BroadcastMessage>, RecordError>,
>)
    ensures
        outcomes.len() == records.len(),
        forall|i: int|
            0 <= i < records.len() ==> outcome_view(#[trigger] outcomes[i]) == classification(
                records[i]@,
            ),
{
    let mut outcomes: Vec<Result<Option<BroadcastMessage>, RecordError>> = Vec::new();
    let mut i: usize = 0;
    while i < records.len()
        invariant
            i <= records.len(),
            outcomes.len() == i,
            forall|j: int|
                0 <= j < i ==> outcome_view(#[trigger] outcomes[j]) == classification(
                    records[j]@,
                ),
        decreases records.len() - i,
    {
        outcomes.push(classify_record(&records[i]));
        i = i + 1;
    }
    outcomes
}

/// The key of an entity: the prefix of its kind, then its identifier.
pub open spec fn entity_key(kind: EntityKind, id: Seq<char>) -> Seq<char> {
    key_prefix(kind) + id
}

/// The tags, written out: each pair of entity kind and operation has the
/// one tag that the table of notifications gives it.
pub proof fn lemma_kind_table()
    ensures
        kind_text(EntityKind::Project, Operation::Created) == "project_created"@,
        kind_text(EntityKind::Block, Operation::Created) == "block_created"@,
        kind_text(EntityKind::Image, Operation::Created) == "image_created"@,
        kind_text(EntityKind::Annotation, Operation::Created) == "annotation_created"@,
        kind_text(EntityKind::Class, Operation::Created) == "class_created"@,
        kind_text(EntityKind::Project, Operation::Updated) == "project_updated"@,
        kind_text(EntityKind::Block, Operation::Updated) == "block_updated"@,
        kind_text(EntityKind::Image, Operation::Updated) == "image_updated"@,
        kind_text(EntityKind::Annotation, Operation::Updated) == "annotation_updated"@,
        kind_text(EntityKind::Class, Operation::Updated) == "class_updated"@,
        kind_text(EntityKind::Project, Operation::Deleted) == "project_deleted"@,
        kind_text(EntityKind::Block, Operation::Deleted) == "block_deleted"@,
        kind_text(EntityKind::Image, Operation::Deleted) == "image_deleted"@,
        kind_text(EntityKind::Annotation, Operation::Deleted) == "annotation_deleted"@,
        kind_text(EntityKind::Class, Operation::Deleted) == "class_deleted"@,
{
    reveal_strlit("project");
    reveal_strlit("block");
    reveal_strlit("image");
    reveal_strlit("annotation");
    reveal_strlit("class");
    reveal_strlit("_");
    reveal_strlit("created");
    reveal_strlit("updated");
    reveal_strlit("deleted");
    reveal_strlit("project_created");
    reveal_strlit("block_created");
    reveal_strlit("image_created");
    reveal_strlit("annotation_created");
    reveal_strlit("class_created");
    reveal_strlit("project_updated");
    reveal_strlit("block_updated");
    reveal_strlit("image_updated");
    reveal_strlit("annotation_updated");
    reveal_strlit("class_updated");
    reveal_strlit("project_deleted");
    reveal_strlit("block_deleted");
    reveal_strlit("image_deleted");
    reveal_strlit("annotation_deleted");
    reveal_strlit("class_deleted");
    assert(kind_text(EntityKind::Project, Operation::Created) =~= "project_created"@);
    assert(kind_text(EntityKind::Block, Operation::Created) =~= "block_created"@);
    assert(kind_text(EntityKind::Image, Operation::Created) =~= "image_created"@);
    assert(kind_text(EntityKind::Annotation, Operation::Created) =~= "annotation_created"@);
    assert(kind_text(EntityKind::Class, Operation::Created) =~= "class_created"@);
    assert(kind_text(EntityKind::Project, Operation::Updated) =~= "project_updated"@);
    assert(kind_text(EntityKind::Block, Operation::Updated) =~= "block_updated"@);
    assert(kind_text(EntityKind::Image, Operation::Updated) =~= "image_updated"@);
    assert(kind_text(EntityKind::Annotation, Operation::Updated) =~= "annotation_updated"@);
    assert(kind_text(EntityKind::Class, Operation::Updated) =~= "class_updated"@);
    assert(kind_text(EntityKind::Project, Operation::Deleted) =~= "project_deleted"@);
    assert(kind_text(EntityKind::Block, Operation::Deleted) =~= "block_deleted"@);
    assert(kind_text(EntityKind::Image, Operation::Deleted) =~= "image_deleted"@);
    assert(kind_text(EntityKind::Annotation, Operation::Deleted) =~= "annotation_deleted"@);
    assert(kind_text(EntityKind::Class, Operation::Deleted) =~= "class_deleted"@);
}

/// A key made of a kind's prefix and an identifier belongs to that kind and
/// to no other, is no key of the registry, and gives the identifier back
/// where the identifier is all that follows the prefix.
pub proof fn lemma_entity_key(kind: EntityKind, id: Seq<char>)
    ensures
        entity_of(entity_key(kind, id)) == Some(kind),
        !begins_with(entity_key(kind, id), connection_prefix()),
        identifier_of(entity_key(kind, id)) == id,
{
    reveal_strlit("PROJECT#");
    reveal_strlit("BLOCK#");
    reveal_strlit("IMAGE#");
    reveal_strlit("ANNOTATION#");
    reveal_strlit("CLASS#");
    reveal_strlit("CONNECTION#");
    let prefix = key_prefix(kind);
    let key = entity_key(kind, id);
    assert(key.subrange(0, prefix.len() as int) =~= prefix);
    assert(forall|i: int| 0 <= i < prefix.len() ==> key[i] == prefix[i]);
    assert forall|other: Seq<char>|
        other.len() >= 2 && (other[0] != key[0] || other[1] != key[1]) implies !begins_with(
        key,
        other,
    ) by {
        if begins_with(key, other) {
            let head = key.subrange(0, other.len() as int);
            assert(head[0] == key[0]);
            assert(head[1] == key[1]);
        }
    }
    lemma_first_index_is(key, '#', prefix.len() - 1);
    assert(tail_from(key, prefix.len() as int) =~= id);
}

/// A record whose key is of an announced kind, under a known event name, is
/// announced with the tag of that kind and operation; what goes with it is
/// the identifier alone for a deletion, the image after the mutation
/// otherwise.
pub proof fn lemma_classifies_entities(r: RecordView, kind: EntityKind, id: Seq<char>, op: Operation)
    requires
        has_key(r, entity_key(kind, id)),
        operation_of(r.event_name) == Some(op),
    ensures
        classification(r) == Ok::<Option<NotificationView>, RecordError>(
            Some(
                NotificationView {
                    kind: kind_text(kind, op),
                    payload: payload_of(r, op, entity_key(kind, id)),
                },
            ),
        ),
{
    lemma_entity_key(kind, id);
}

/// A record whose key begins with none of the prefixes of the announced
/// kinds yields no notification.
pub proof fn lemma_unknown_prefix_is_discarded(r: RecordView, key: Seq<char>)
    requires
        has_key(r, key),
        forall|kind: EntityKind| !begins_with(key, #[trigger] key_prefix(kind)),
    ensures
        classification(r) == Ok::<Option<NotificationView>, RecordError>(None),
{
    assert(!begins_with(key, key_prefix(EntityKind::Project)));
    assert(!begins_with(key, key_prefix(EntityKind::Block)));
    assert(!begins_with(key, key_prefix(EntityKind::Image)));
    assert(!begins_with(key, key_prefix(EntityKind::Annotation)));
    assert(!begins_with(key, key_prefix(EntityKind::Class)));
}

/// A row of the registry never yields a notification, whatever the event.
pub proof fn lemma_connection_rows_are_filtered(r: RecordView, key: Seq<char>)
    requires
        has_key(r, key),
        begins_with(key, connection_prefix()),
    ensures
        classification(r) == Ok::<Option<NotificationView>, RecordError>(None),
{
}

/// What goes with the notification of a deletion is one member, `id`, that
/// holds the identifier of the entity, and nothing of the image before.
pub proof fn lemma_delete_payload(r: RecordView, kind: EntityKind, id: Seq<char>)
    requires
        has_key(r, entity_key(kind, id)),
        operation_of(r.event_name) == Some(Operation::Deleted),
    ensures
        classification(r) matches Ok(Some(n)) && n.kind == kind_text(kind, Operation::Deleted)
            && n.payload.members.dom() == set!["id"@] && n.payload.texts == map!["id"@ => id],
{
    lemma_classifies_entities(r, kind, id, Operation::Deleted);
    let payload = payload_of(r, Operation::Deleted, entity_key(kind, id));
    lemma_entity_key(kind, id);
    assert(payload.members.dom() =~= set!["id"@]);
    assert(payload.texts =~= map!["id"@ => id]);
}

/// The outcome for a record of a batch depends on that record alone: two
/// batches that differ in one place only are classified alike everywhere
/// else.
pub proof fn lemma_batch_isolation(a: Seq<RecordView>, b: Seq<RecordView>, k: int)
    requires
        a.len() == b.len(),
        forall|i: int| 0 <= i < a.len() && i != k ==> a[i] == b[i],
    ensures
        batch_classification(a).len() == a.len(),
        forall|i: int|
            0 <= i < a.len() && i != k ==> batch_classification(a)[i] == batch_classification(
                b,
            )[i],
        forall|i: int| 0 <= i < a.len() ==> batch_classification(a)[i] == classification(a[i]),
{
}

/// Whether an image is there and has members.
pub open spec fn has_members(image: ImageView) -> bool {
    match image {
        ImageView::Present(document) => !has_no_member(document),
        _ => false,
    }
}

/// Whether a record carries the images that its operation calls for: a
/// creation the image after alone, a deletion the image before alone, an
/// update at least the image after.
pub open spec fn carries_its_images(r: RecordView) -> bool {
    match operation_of(r.event_name) {
        Some(Operation::Created) => r.before_image is Absent && has_members(r.after_image),
        Some(Operation::Updated) => has_members(r.after_image),
        Some(Operation::Deleted) => r.after_image is Absent && r.before_image is Present,
        None => true,
    }
}

/// In a record that carries the images its operation calls for, the image
/// that counts is the one before for a deletion and the one after
/// otherwise.
pub proof fn lemma_image_that_counts(r: RecordView)
    requires
        carries_its_images(r),
        operation_of(r.event_name) is Some,
    ensures
        effective_image(r) == if operation_of(r.event_name) == Some(Operation::Deleted) {
            r.before_image
        } else {
            r.after_image
        },
{
}

} // verus!
