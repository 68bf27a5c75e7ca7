//! The `message` table: the send, the folder listings, the read of a party,
//! and the writes each party makes to its own copy.

use vstd::prelude::*;

use crate::error::{AppError, AppErrorView};
use crate::id::{MessageId, Timestamp, UserId};
use crate::page::{opt_text, paged, Param, ParamView, Statement, StatementView};
use crate::sql::{Cell, Cond, Conflict, Cuts, Picking, Row, Storing, Term, Text, Writing};
use crate::text::{push_placeholder, trim};
use crate::transaction::Step;

verus! {

/// Where a party keeps its copy of a message.
#[derive(Clone, Copy, PartialEq, Eq, Structural, Debug)]
pub enum Folder {
    Inbox,
    Sent,
    Archive,
    Trash,
    /// The copy was permanently dropped.
    Deleted,
}

impl Folder {
    /// The stored name of a folder.
    pub open spec fn name(self) -> Seq<char> {
        match self {
            Folder::Inbox => "inbox"@,
            Folder::Sent => "sent"@,
            Folder::Archive => "archive"@,
            Folder::Trash => "trash"@,
            Folder::Deleted => "deleted"@,
        }
    }

    /// The stored name of a folder.
    pub fn as_str(self) -> (name: &'static str)
        ensures
            name@ == self.name(),
    {
        match self {
            Folder::Inbox => "inbox",
            Folder::Sent => "sent",
            Folder::Archive => "archive",
            Folder::Trash => "trash",
            Folder::Deleted => "deleted",
        }
    }

    /// Whether a copy in this folder was filed away from its home.
    pub open spec fn filed(self) -> bool {
        self == Folder::Archive || self == Folder::Trash
    }

    /// Whether a copy in this folder was filed away from its home.
    pub fn is_filed(self) -> (filed: bool)
        ensures
            filed == self.filed(),
    {
        matches!(self, Folder::Archive | Folder::Trash)
    }

    /// Whether a copy may be restored into this folder: never the trash.
    pub open spec fn restores(self) -> bool {
        self == Folder::Inbox || self == Folder::Sent || self == Folder::Archive
    }

    /// Whether a copy may be restored into this folder: never the trash.
    pub fn is_restore_target(self) -> (restores: bool)
        ensures
            restores == self.restores(),
    {
        matches!(self, Folder::Inbox | Folder::Sent | Folder::Archive)
    }
}

/// A message with where each party keeps it, and where each copy was filed
/// from.
#[derive(Debug)]
pub struct Message {
    pub id: MessageId,
    pub sender: UserId,
    pub recipient: UserId,
    pub subject: String,
    pub body: String,
    pub label: Option<String>,
    pub sent_at: Timestamp,
    pub read: bool,
    pub sender_folder: Folder,
    pub recipient_folder: Folder,
    pub sender_origin: Option<Folder>,
    pub recipient_origin: Option<Folder>,
}

impl Message {
    /// Whether `user` sent the message.
    pub fn is_sender(&self, user: UserId) -> (yes: bool)
        ensures
            yes == (self.sender == user),
    {
        self.sender == user
    }

    /// The folder of `user`'s copy.
    pub open spec fn folder(self, user: UserId) -> Folder {
        if self.sender == user {
            self.sender_folder
        } else {
            self.recipient_folder
        }
    }

    /// The folder of `user`'s copy.
    pub fn folder_of(&self, user: UserId) -> (folder: Folder)
        ensures
            folder == self.folder(user),
    {
        if self.is_sender(user) {
            self.sender_folder
        } else {
            self.recipient_folder
        }
    }

    /// The folder `user`'s copy was filed from.
    pub open spec fn origin(self, user: UserId) -> Option<Folder> {
        if self.sender == user {
            self.sender_origin
        } else {
            self.recipient_origin
        }
    }

    /// The folder `user`'s copy was filed from.
    pub fn origin_of(&self, user: UserId) -> (origin: Option<Folder>)
        ensures
            origin == self.origin(user),
    {
        if self.is_sender(user) {
            self.sender_origin
        } else {
            self.recipient_origin
        }
    }
}

pub const SEND: &'static str =
    "INSERT INTO message (id, sender, recipient, subject, body, label, sent_at, read, \
     sender_folder, recipient_folder, sender_origin, recipient_origin) VALUES ($1, $2, $3, $4, \
     $5, $6, $7, false, 'sent', 'inbox', NULL, NULL) RETURNING id, sender, recipient, subject, \
     body, label, sent_at, read, sender_folder, recipient_folder, sender_origin, \
     recipient_origin";

/// The insert of a message: unread, in the sender's sent folder and the
/// recipient's inbox.
pub fn send(
    id: MessageId,
    sender: UserId,
    recipient: UserId,
    subject: &str,
    body: &str,
    label: Option<&str>,
    now: Timestamp,
) -> (statement: Statement)
    ensures
        statement@ == crate::page::sends(
            SEND,
            seq![
                ParamView::Uuid(id.0),
                ParamView::Uuid(sender.0),
                ParamView::Uuid(recipient.0),
                ParamView::Text(subject@),
                ParamView::Text(body@),
                ParamView::OptText(crate::page::opt_view(label)),
                ParamView::I64(now.0),
            ],
        ),
{
    Statement::new(
        SEND,
        vec![
            Param::Uuid(id.0),
            Param::Uuid(sender.0),
            Param::Uuid(recipient.0),
            Param::Text(subject.to_owned()),
            Param::Text(body.to_owned()),
            Param::OptText(opt_text(label)),
            Param::I64(now.0),
        ],
    )
}

/// What a search looks for: the needle, and the SQL of the subject and of the
/// body, all three folded the same way.
#[derive(Clone, Copy, Debug)]
pub struct Search<'a> {
    pub needle: &'a str,
    pub subject: &'a str,
    pub body: &'a str,
}

/// The part of a search text that is folded into a needle.
pub fn needle(q: &str) -> (bare: &str)
    ensures
        bare@ == crate::text::trimmed(q@),
{
    trim(q)
}

pub const FROM_SENT: &'static str =
    "message WHERE sender = $1 AND sender_folder = 'sent'";

pub const FROM_ARCHIVE: &'static str =
    "message WHERE ((recipient = $1 AND recipient_folder = 'archive') OR (sender = $1 AND \
     sender_folder = 'archive'))";

pub const FROM_TRASH: &'static str =
    "message WHERE ((recipient = $1 AND recipient_folder = 'trash') OR (sender = $1 AND \
     sender_folder = 'trash'))";

pub const FROM_HOME: &'static str =
    "message WHERE recipient = $1 AND recipient_folder = $2";

/// The folder predicate of a listing.
pub open spec fn folder_where(folder: Folder) -> Seq<char> {
    match folder {
        Folder::Sent => FROM_SENT@,
        Folder::Archive => FROM_ARCHIVE@,
        Folder::Trash => FROM_TRASH@,
        _ => FROM_HOME@,
    }
}

/// The values the folder predicate binds.
pub open spec fn folder_binds(user: UserId, folder: Folder) -> Seq<ParamView> {
    if folder == Folder::Inbox {
        seq![ParamView::Uuid(user.0), ParamView::Text(folder.name())]
    } else {
        seq![ParamView::Uuid(user.0)]
    }
}

/// A listing narrowed to a read flag, where one is asked for.
pub open spec fn read_where(next: nat, read: Option<bool>) -> Seq<char> {
    if read is Some {
        " AND read = "@ + crate::text::placeholder(next)
    } else {
        Seq::empty()
    }
}

/// The value of the read flag, where one is asked for.
pub open spec fn read_binds(read: Option<bool>) -> Seq<ParamView> {
    match read {
        Some(read) => seq![ParamView::Bool(read)],
        None => Seq::empty(),
    }
}

/// A listing narrowed to a needle, where there is one: a blank needle
/// searches nothing.
pub open spec fn search_where(next: nat, search: Option<Search>) -> Seq<char> {
    match search {
        Some(search) => if search.needle@.len() > 0 {
            " AND (position("@ + crate::text::placeholder(next) + " in "@ + search.subject@
                + ") > 0 OR position("@ + crate::text::placeholder(next) + " in "@ + search.body@
                + ") > 0)"@
        } else {
            Seq::empty()
        },
        None => Seq::empty(),
    }
}

/// The needle, where there is one.
pub open spec fn search_binds(search: Option<Search>) -> Seq<ParamView> {
    match search {
        Some(search) => if search.needle@.len() > 0 {
            seq![ParamView::Text(search.needle@)]
        } else {
            Seq::empty()
        },
        None => Seq::empty(),
    }
}

/// The values a listing binds.
pub open spec fn list_binds(
    user: UserId,
    folder: Folder,
    read: Option<bool>,
    search: Option<Search>,
) -> Seq<ParamView> {
    folder_binds(user, folder) + read_binds(read) + search_binds(search)
}

/// The `FROM` and `WHERE` of a listing: each narrowing is numbered after the
/// values bound before it.
pub open spec fn list_where(
    user: UserId,
    folder: Folder,
    read: Option<bool>,
    search: Option<Search>,
) -> Seq<char> {
    let spent = folder_binds(user, folder).len();
    let then_spent = spent + read_binds(read).len();
    folder_where(folder) + read_where(spent + 1, read) + search_where(then_spent + 1, search)
}

fn folder_from(folder: Folder) -> (from: String)
    ensures
        from@ == folder_where(folder),
{
    match folder {
        Folder::Sent => FROM_SENT.to_owned(),
        Folder::Archive => FROM_ARCHIVE.to_owned(),
        Folder::Trash => FROM_TRASH.to_owned(),
        _ => FROM_HOME.to_owned(),
    }
}

fn narrow_read(from: String, next: u128, read: Option<bool>) -> (narrowed: String)
    ensures
        narrowed@ == from@ + read_where(next as nat, read),
{
    let mut narrowed = from;
    if read.is_some() {
        narrowed.append(" AND read = ");
        push_placeholder(&mut narrowed, next);
    }
    assert(narrowed@ =~= from@ + read_where(next as nat, read));
    narrowed
}

fn narrow_search(from: String, next: u128, search: Option<Search>) -> (narrowed: String)
    ensures
        narrowed@ == from@ + search_where(next as nat, search),
{
    let mut narrowed = from;
    if let Some(search) = search {
        if search.needle.unicode_len() > 0 {
            narrowed.append(" AND (position(");
            push_placeholder(&mut narrowed, next);
            narrowed.append(" in ");
            narrowed.append(search.subject);
            narrowed.append(") > 0 OR position(");
            push_placeholder(&mut narrowed, next);
            narrowed.append(" in ");
            narrowed.append(search.body);
            narrowed.append(") > 0)");
        }
    }
    assert(narrowed@ =~= from@ + search_where(next as nat, search));
    narrowed
}

pub const LIST_FOLDER_ORDER: &'static str = "ORDER BY id DESC";

/// The read of one folder of `user`, newest first. The inbox is the
/// recipient's, the sent folder the sender's, and the archive and the trash
/// are both sides' filed copies; `read` and `search` narrow whichever it is.
/// Copies that are gone have no listing of their own: they take the inbox's
/// predicate, whose folder only the inbox binds.
pub fn list_folder(
    user: UserId,
    folder: Folder,
    read: Option<bool>,
    search: Option<Search>,
    limit: Option<i64>,
    offset: i64,
) -> (both: (Statement, Option<Statement>))
    ensures
        crate::page::pages(
            both,
            list_where(user, folder, read, search),
            LIST_FOLDER_ORDER@,
            list_binds(user, folder, read, search),
            limit,
            offset,
        ),
{
    let mut binds: Vec<Param> = vec![Param::Uuid(user.0)];
    let mut next: u128 = 2;
    if folder == Folder::Inbox {
        binds.push(Param::Text(folder.as_str().to_owned()));
        next = 3;
    }
    assert(crate::page::bound(binds@) =~= folder_binds(user, folder));
    let from = narrow_read(folder_from(folder), next, read);
    if let Some(read) = read {
        binds.push(Param::Bool(read));
        next = next + 1;
    }
    assert(crate::page::bound(binds@) =~= folder_binds(user, folder) + read_binds(read));
    let from = narrow_search(from, next, search);
    if let Some(search) = search {
        if search.needle.unicode_len() > 0 {
            binds.push(Param::Text(search.needle.to_owned()));
        }
    }
    assert(crate::page::bound(binds@) =~= list_binds(user, folder, read, search));
    paged(from.as_str(), LIST_FOLDER_ORDER, binds, limit, offset)
}

pub const READ_FOR: &'static str =
    "SELECT id, sender, recipient, subject, body, label, sent_at, read, sender_folder, \
     recipient_folder, sender_origin, recipient_origin FROM message WHERE id = $1";

/// The read of a message, of which [`readable`] decides.
pub fn read_for(id: MessageId) -> (statement: Statement)
    ensures
        statement@ == crate::page::sends(READ_FOR, seq![ParamView::Uuid(id.0)]),
{
    Statement::new(READ_FOR, vec![Param::Uuid(id.0)])
}

/// Whether `user` is a party of a message that still keeps its copy.
pub open spec fn may_read(message: Message, user: UserId) -> bool {
    (message.sender == user || message.recipient == user) && message.folder(user)
        != Folder::Deleted
}

/// The message, only for a party that still keeps its copy.
pub fn readable(message: Option<Message>, user: UserId) -> (visible: Option<Message>)
    ensures
        visible == (match message {
            Some(message) => if may_read(message, user) {
                Some(message)
            } else {
                None
            },
            None => None,
        }),
{
    match message {
        Some(message) => if (message.sender == user || message.recipient == user)
            && message.folder_of(user) != Folder::Deleted {
            Some(message)
        } else {
            None
        },
        None => None,
    }
}

pub const SET_READ: &'static str =
    "UPDATE message SET read = $1 WHERE id = $2 RETURNING id, sender, recipient, subject, body, \
     label, sent_at, read, sender_folder, recipient_folder, sender_origin, recipient_origin";

/// The flip of the read flag and of nothing else; `NotFound` where nothing
/// comes back.
pub fn set_read(id: MessageId, read: bool) -> (statement: Statement)
    ensures
        statement@ == crate::page::sends(
            SET_READ,
            seq![ParamView::Bool(read), ParamView::Uuid(id.0)],
        ),
{
    Statement::new(SET_READ, vec![Param::Bool(read), Param::Uuid(id.0)])
}

/// Where a copy in `current`, filed from `origin`, is remembered to come from
/// once it moves to `folder`: the folder it leaves, unless that is the trash;
/// what it remembered, where it does not move; and nothing at home.
pub open spec fn origin_after(current: Folder, origin: Option<Folder>, folder: Folder) -> Option<
    Folder,
> {
    if !folder.filed() {
        None
    } else if current == folder {
        origin
    } else if current.restores() {
        Some(current)
    } else {
        None
    }
}

/// The name of a folder, where there is one.
pub open spec fn origin_name(origin: Option<Folder>) -> Option<Seq<char>> {
    match origin {
        Some(folder) => Some(folder.name()),
        None => None,
    }
}

pub const MOVE_SENDER: &'static str =
    "UPDATE message SET sender_folder = $1, sender_origin = $2 WHERE id = $3 RETURNING id, \
     sender, recipient, subject, body, label, sent_at, read, sender_folder, recipient_folder, \
     sender_origin, recipient_origin";

pub const MOVE_RECIPIENT: &'static str =
    "UPDATE message SET recipient_folder = $1, recipient_origin = $2 WHERE id = $3 RETURNING \
     id, sender, recipient, subject, body, label, sent_at, read, sender_folder, \
     recipient_folder, sender_origin, recipient_origin";

/// The filing of `user`'s copy into `folder`, with where it came from. Only
/// that side's two fields are written; `NotFound` where nothing comes back.
pub fn move_to(message: &Message, user: UserId, folder: Folder) -> (statement: Statement)
    ensures
        statement@ == crate::page::sends(
            if message.sender == user {
                MOVE_SENDER
            } else {
                MOVE_RECIPIENT
            },
            seq![
                ParamView::Text(folder.name()),
                ParamView::OptText(
                    origin_name(
                        origin_after(message.folder(user), message.origin(user), folder),
                    ),
                ),
                ParamView::Uuid(message.id.0),
            ],
        ),
{
    let current = message.folder_of(user);
    let origin = if !folder.is_filed() {
        None
    } else if current == folder {
        message.origin_of(user)
    } else if current.is_restore_target() {
        Some(current)
    } else {
        None
    };
    let name = match origin {
        Some(origin) => Some(origin.as_str().to_owned()),
        None => None,
    };
    let binds = vec![
        Param::Text(folder.as_str().to_owned()),
        Param::OptText(name),
        Param::Uuid(message.id.0),
    ];
    if message.is_sender(user) {
        Statement::new(MOVE_SENDER, binds)
    } else {
        Statement::new(MOVE_RECIPIENT, binds)
    }
}

/// Where both copies of a message are after a write.
#[derive(Clone, Copy, PartialEq, Eq, Structural, Debug)]
pub struct Filing {
    pub sender_folder: Folder,
    pub recipient_folder: Folder,
}

/// The statement a permanent delete waits for.
#[derive(Clone, Copy, PartialEq, Eq, Structural, Debug)]
pub enum DeleteFor {
    /// Drop one side's copy out of the trash.
    DropSide,
    /// Remove the row once both copies are dropped.
    RemoveRow,
}

pub const DROP_SENDER: &'static str =
    "UPDATE message SET sender_folder = 'deleted', sender_origin = NULL WHERE id = $1 AND \
     sender_folder = 'trash' RETURNING id, sender, recipient, subject, body, label, sent_at, \
     read, sender_folder, recipient_folder, sender_origin, recipient_origin";

pub const DROP_RECIPIENT: &'static str =
    "UPDATE message SET recipient_folder = 'deleted', recipient_origin = NULL WHERE id = $1 AND \
     recipient_folder = 'trash' RETURNING id, sender, recipient, subject, body, label, sent_at, \
     read, sender_folder, recipient_folder, sender_origin, recipient_origin";

pub const REMOVE_MESSAGE: &'static str =
    "DELETE FROM message WHERE id = $1 RETURNING id, sender, recipient, subject, body, label, \
     sent_at, read, sender_folder, recipient_folder, sender_origin, recipient_origin";

impl DeleteFor {
    /// The statement of this step, for a party that is the sender or not.
    pub open spec fn asks(self, id: MessageId, by_sender: bool) -> StatementView {
        crate::page::sends(
            match self {
                DeleteFor::DropSide => if by_sender {
                    DROP_SENDER
                } else {
                    DROP_RECIPIENT
                },
                DeleteFor::RemoveRow => REMOVE_MESSAGE,
            },
            seq![ParamView::Uuid(id.0)],
        )
    }

    /// The statement of this step, for a party that is the sender or not.
    pub fn statement(self, id: MessageId, by_sender: bool) -> (statement: Statement)
        ensures
            statement@ == self.asks(id, by_sender),
    {
        let key = vec![Param::Uuid(id.0)];
        match self {
            DeleteFor::DropSide => if by_sender {
                Statement::new(DROP_SENDER, key)
            } else {
                Statement::new(DROP_RECIPIENT, key)
            },
            DeleteFor::RemoveRow => Statement::new(REMOVE_MESSAGE, key),
        }
    }
}

/// The refusal to drop a copy that is not in the trash.
#[derive(Clone, Copy, PartialEq, Eq, Structural, Debug)]
pub struct NotInTrash;

/// The answer to dropping a copy that is not in the trash.
pub const NOT_IN_TRASH: &'static str = "only messages in the trash can be permanently deleted";

impl NotInTrash {
    /// What it answers.
    pub fn error(self) -> (error: AppError)
        ensures
            error@ == AppErrorView::Conflict(NOT_IN_TRASH@),
    {
        AppError::Conflict(NOT_IN_TRASH)
    }
}

/// What a permanent delete does once the statement of `at` is answered.
pub open spec fn delete_for_next(at: DeleteFor, after: Option<Filing>) -> Step<
    DeleteFor,
    (),
    NotInTrash,
> {
    match at {
        DeleteFor::DropSide => match after {
            None => Step::Abort(NotInTrash),
            Some(filing) => if filing.sender_folder == Folder::Deleted && filing.recipient_folder
                == Folder::Deleted {
                Step::Ask(DeleteFor::RemoveRow)
            } else {
                Step::Commit(())
            },
        },
        DeleteFor::RemoveRow => Step::Commit(()),
    }
}

/// Permanently drop a party's copy: the step that follows the answer to `at`.
/// A delete starts at [`DeleteFor::DropSide`]. Whether the row goes is judged
/// on the row as the write left it, so two deletes at once cannot leave a row
/// that nobody keeps.
pub fn delete_for(at: DeleteFor, after: Option<Filing>) -> (step: Step<DeleteFor, (), NotInTrash>)
    ensures
        step == delete_for_next(at, after),
{
    match at {
        DeleteFor::DropSide => match after {
            None => Step::Abort(NotInTrash),
            Some(filing) => if filing.sender_folder == Folder::Deleted && filing.recipient_folder
                == Folder::Deleted {
                Step::Ask(DeleteFor::RemoveRow)
            } else {
                Step::Commit(())
            },
        },
        DeleteFor::RemoveRow => Step::Commit(()),
    }
}

/// One party's copy: where it is, and where it was filed from.
pub struct Filed {
    pub folder: Folder,
    pub origin: Option<Folder>,
}

/// A stored message.
pub struct Mail {
    pub sender: UserId,
    pub recipient: UserId,
    pub read: bool,
    pub sent: Filed,
    pub received: Filed,
}

/// What a send stores.
pub open spec fn delivered(sender: UserId, recipient: UserId) -> Mail {
    Mail {
        sender,
        recipient,
        read: false,
        sent: Filed { folder: Folder::Sent, origin: None },
        received: Filed { folder: Folder::Inbox, origin: None },
    }
}

/// What filing a copy leaves of it.
pub open spec fn filed_copy(copy: Filed, folder: Folder) -> Filed {
    Filed { folder, origin: origin_after(copy.folder, copy.origin, folder) }
}

/// What a party's filing leaves of a message.
pub open spec fn moved(mail: Mail, user: UserId, folder: Folder) -> Mail {
    if mail.sender == user {
        Mail { sent: filed_copy(mail.sent, folder), ..mail }
    } else {
        Mail { received: filed_copy(mail.received, folder), ..mail }
    }
}

/// Where a copy goes back to: the folder it was filed from, or its home.
pub open spec fn restored_to(copy: Filed, home: Folder) -> Folder {
    match copy.origin {
        Some(folder) => folder,
        None => home,
    }
}

/// Whether a copy remembers a folder it can be restored to.
pub open spec fn remembers_well(copy: Filed) -> bool {
    match copy.origin {
        Some(origin) => copy.folder.filed() && origin.restores() && origin != copy.folder,
        None => true,
    }
}

/// Filing away remembers the folder being left, so restoring goes back to it;
/// nothing is ever remembered as coming from the trash or from where it is, a
/// move to where it is changes nothing, and a copy at home remembers nothing.
pub proof fn law_filing_is_remembered(copy: Filed, folder: Folder, home: Folder)
    requires
        remembers_well(copy),
    ensures
        remembers_well(filed_copy(copy, folder)),
        folder.filed() && copy.folder != folder && copy.folder.restores() ==> restored_to(
            filed_copy(copy, folder),
            home,
        ) == copy.folder,
        copy.folder == Folder::Trash && folder == Folder::Archive ==> restored_to(
            filed_copy(copy, folder),
            home,
        ) == home,
        copy.folder == folder && folder.filed() ==> filed_copy(copy, folder) == copy,
        !folder.filed() ==> filed_copy(copy, folder).origin is None,
{
}

/// A copy that goes from home to the archive to the trash comes back to the
/// archive, and from there home.
pub proof fn law_filing_unwinds(home: Folder)
    requires
        home == Folder::Inbox || home == Folder::Sent,
    ensures
        ({
            let archived = filed_copy(Filed { folder: home, origin: None }, Folder::Archive);
            let trashed = filed_copy(archived, Folder::Trash);
            let back = filed_copy(trashed, restored_to(trashed, home));
            &&& restored_to(trashed, home) == Folder::Archive
            &&& restored_to(back, home) == home
            &&& filed_copy(back, home) == (Filed { folder: home, origin: None })
        }),
{
}

/// A party's filing never touches the other party's copy or the read flag.
pub proof fn law_sides_are_apart(mail: Mail, user: UserId, folder: Folder)
    ensures
        ({
            let after = moved(mail, user, folder);
            &&& mail.sender == user ==> after.received == mail.received
            &&& mail.sender != user ==> after.sent == mail.sent
            &&& after.read == mail.read && after.sender == mail.sender && after.recipient
                == mail.recipient
        }),
{
}

/// The messages by key.
pub type Mailbox = Map<MessageId, Mail>;

/// Where the copies of a stored message are.
pub open spec fn filing(mail: Mail) -> Filing {
    Filing { sender_folder: mail.sent.folder, recipient_folder: mail.received.folder }
}

/// What dropping one party's copy leaves of a message.
pub open spec fn dropped(mail: Mail, by_sender: bool) -> Mail {
    let gone = Filed { folder: Folder::Deleted, origin: None };
    if by_sender {
        Mail { sent: gone, ..mail }
    } else {
        Mail { received: gone, ..mail }
    }
}

/// What each statement of a permanent delete does, and what it replies.
pub open spec fn delete_effect(db: Mailbox, id: MessageId, by_sender: bool, at: DeleteFor) -> (
    Mailbox,
    Option<Filing>,
) {
    match at {
        DeleteFor::DropSide => if db.contains_key(id) && (if by_sender {
            db[id].sent.folder
        } else {
            db[id].received.folder
        }) == Folder::Trash {
            let after = dropped(db[id], by_sender);
            (db.insert(id, after), Some(filing(after)))
        } else {
            (db, None)
        },
        DeleteFor::RemoveRow => (db.remove(id), None),
    }
}

/// A whole permanent delete.
pub open spec fn delete_run(db: Mailbox, id: MessageId, by_sender: bool) -> (
    Mailbox,
    Step<DeleteFor, (), NotInTrash>,
) {
    crate::transaction::run(
        db,
        Step::Ask(DeleteFor::DropSide),
        |at: DeleteFor, after: Option<Filing>| delete_for_next(at, after),
        |mailbox: Mailbox, at: DeleteFor| delete_effect(mailbox, id, by_sender, at),
        2,
    )
}

/// Whether every stored message is kept by somebody.
pub open spec fn all_kept(db: Mailbox) -> bool {
    forall|id: MessageId| #[trigger]
        db.contains_key(id) ==> !(db[id].sent.folder == Folder::Deleted
            && db[id].received.folder == Folder::Deleted)
}

/// A copy is dropped only out of the trash; the other party keeps its copy as
/// it is, and the row goes exactly when the other copy is gone already.
pub proof fn law_delete_only_from_the_trash(db: Mailbox, id: MessageId, by_sender: bool)
    requires
        all_kept(db),
    ensures
        ({
            let end = delete_run(db, id, by_sender);
            let own = if by_sender {
                db[id].sent
            } else {
                db[id].received
            };
            let other = if by_sender {
                db[id].received
            } else {
                db[id].sent
            };
            let there = db.contains_key(id) && own.folder == Folder::Trash;
            &&& end.1 is Commit <==> there
            &&& !there ==> end.0 == db
            &&& there && other.folder == Folder::Deleted ==> end.0 == db.remove(id)
            &&& there && other.folder != Folder::Deleted ==> end.0 == db.insert(
                id,
                dropped(db[id], by_sender),
            )
            &&& all_kept(end.0)
        }),
{
    reveal_with_fuel(crate::transaction::run, 3);
    let end = delete_run(db, id, by_sender);
    assert forall|key: MessageId| #[trigger] end.0.contains_key(key) implies !(
    end.0[key].sent.folder == Folder::Deleted && end.0[key].received.folder == Folder::Deleted) by {
        if key != id {
            assert(db.contains_key(key));
        }
    }
    if db.contains_key(id) {
        assert(end.0.remove(id) =~= db.remove(id));
    }
}

/// Whether a listing of a folder shows a message to `user`.
pub open spec fn lists(
    mail: Mail,
    user: UserId,
    folder: Folder,
    read: Option<bool>,
    matches_search: bool,
) -> bool {
    &&& match folder {
        Folder::Sent => mail.sender == user && mail.sent.folder == Folder::Sent,
        Folder::Inbox => mail.recipient == user && mail.received.folder == Folder::Inbox,
        _ => (mail.recipient == user && mail.received.folder == folder) || (mail.sender == user
            && mail.sent.folder == folder),
    }
    &&& read is Some ==> mail.read == read->0
    &&& matches_search
}

/// A message that was just sent is unread in the recipient's inbox and in the
/// sender's sent folder, and in no other folder of theirs.
pub proof fn law_send_delivers(sender: UserId, recipient: UserId, folder: Folder)
    requires
        sender != recipient,
        folder != Folder::Deleted,
    ensures
        ({
            let mail = delivered(sender, recipient);
            &&& lists(mail, recipient, folder, Some(false), true) <==> folder == Folder::Inbox
            &&& lists(mail, sender, folder, Some(false), true) <==> folder == Folder::Sent
            &&& !lists(mail, recipient, folder, Some(true), true)
            &&& remembers_well(mail.sent) && remembers_well(mail.received)
        }),
{
}

/// Neither a read flag nor a search widens a folder: what is listed with them
/// is listed without, and only to a party of the message.
pub proof fn law_narrowing_never_widens(
    mail: Mail,
    user: UserId,
    folder: Folder,
    read: Option<bool>,
    matches_search: bool,
)
    ensures
        lists(mail, user, folder, read, matches_search) ==> lists(mail, user, folder, None, true),
        lists(mail, user, folder, read, matches_search) ==> mail.sender == user || mail.recipient
            == user,
        lists(mail, user, folder, read, matches_search) && read is Some ==> mail.read == read->0,
{
}

/// What [`SEND`] says.
pub open spec fn send_reading() -> Storing {
    Storing {
        head: "INSERT INTO "@,
        table: "message"@,
        columns: seq!["id"@, "sender"@, "recipient"@, "subject"@, "body"@, "label"@, "sent_at"@, "read"@, "sender_folder"@, "recipient_folder"@, "sender_origin"@, "recipient_origin"@],
        values: seq![Term::Bind(1), Term::Bind(2), Term::Bind(3), Term::Bind(4), Term::Bind(5), Term::Bind(6), Term::Bind(7), Term::Word("false"@, Cell::Bool(false)), Term::Word("'sent'"@, Cell::Text("sent"@)), Term::Word("'inbox'"@, Cell::Text("inbox"@)), Term::Word("NULL"@, Cell::Null), Term::Word("NULL"@, Cell::Null)],
        selected: false,
        conflict: Conflict::Unread,
        rest: crate::sql::returning(),
    }
}

proof fn lemma_send_reads()
    ensures
        crate::sql::spells(SEND@, 0, send_reading().text()),
{
    reveal_strlit("INSERT INTO message (id, sender, recipient, subject, body, label, sent_at, read, sender_folder, recipient_folder, sender_origin, recipient_origin) VALUES ($1, $2, $3, $4, $5, $6, $7, false, 'sent', 'inbox', NULL, NULL) RETURNING id, sender, recipient, subject, body, label, sent_at, read, sender_folder, recipient_folder, sender_origin, recipient_origin");
    reveal_strlit("INSERT INTO ");
    reveal_strlit("message");
    reveal_strlit(" (");
    reveal_strlit("id");
    reveal_strlit(", ");
    reveal_strlit("sender");
    reveal_strlit("recipient");
    reveal_strlit("subject");
    reveal_strlit("body");
    reveal_strlit("label");
    reveal_strlit("sent_at");
    reveal_strlit("read");
    reveal_strlit("sender_folder");
    reveal_strlit("recipient_folder");
    reveal_strlit("sender_origin");
    reveal_strlit("recipient_origin");
    reveal_strlit(") VALUES (");
    reveal_strlit("$");
    reveal_strlit("false");
    reveal_strlit("'sent'");
    reveal_strlit("'inbox'");
    reveal_strlit("NULL");
    reveal_strlit(")");
    reveal_strlit(" RETURNING ");
    reveal(crate::sql::Storing::text);
    reveal_with_fuel(crate::sql::names_text, 13);
    reveal_with_fuel(crate::sql::values_text, 13);
    reveal_with_fuel(crate::sql::stands, 17);
    reveal_with_fuel(crate::sql::spells_by, 53);
    crate::sql::lemma_spells_by(SEND@, 0, send_reading().text(), crate::sql::cut(12, crate::sql::cut(19, crate::sql::cut(21, crate::sql::cut(23, crate::sql::cut(25, crate::sql::cut(31, crate::sql::cut(33, crate::sql::cut(42, crate::sql::cut(44, crate::sql::cut(51, crate::sql::cut(53, crate::sql::cut(57, crate::sql::cut(59, crate::sql::cut(64, crate::sql::cut(66, crate::sql::cut(73, crate::sql::cut(75, crate::sql::cut(79, crate::sql::cut(81, crate::sql::cut(94, crate::sql::cut(96, crate::sql::cut(112, crate::sql::cut(114, crate::sql::cut(127, crate::sql::cut(129, crate::sql::cut(145, crate::sql::cut(155, crate::sql::cut(157, crate::sql::cut(159, crate::sql::cut(161, crate::sql::cut(163, crate::sql::cut(165, crate::sql::cut(167, crate::sql::cut(169, crate::sql::cut(171, crate::sql::cut(173, crate::sql::cut(175, crate::sql::cut(177, crate::sql::cut(179, crate::sql::cut(181, crate::sql::cut(183, crate::sql::cut(188, crate::sql::cut(190, crate::sql::cut(196, crate::sql::cut(198, crate::sql::cut(205, crate::sql::cut(207, crate::sql::cut(211, crate::sql::cut(213, crate::sql::cut(217, crate::sql::cut(218, crate::sql::cut(229, Cuts::Last)))))))))))))))))))))))))))))))))))))))))))))))))))));
}

/// What [`send`] stores, column by column, is what it is given.
pub proof fn law_send_lands_in_its_columns(
    id: MessageId,
    sender: UserId,
    recipient: UserId,
    subject: &str,
    body: &str,
    label: Option<&str>,
    now: Timestamp,
    sent: Statement,
)
    requires
        call_ensures(send, (id, sender, recipient, subject, body, label, now), sent),
    ensures
        send_reading().is_read(sent@),
        send_reading().stores(sent@.binds) == seq![
            ("id"@, Cell::Uuid(id.0)),
            ("sender"@, Cell::Uuid(sender.0)),
            ("recipient"@, Cell::Uuid(recipient.0)),
            ("subject"@, Cell::Text(subject@)),
            ("body"@, Cell::Text(body@)),
            ("label"@, crate::sql::opt_text(crate::page::opt_view(label))),
            ("sent_at"@, Cell::Int(now.0 as int)),
            ("read"@, Cell::Bool(false)),
            ("sender_folder"@, Cell::Text("sent"@)),
            ("recipient_folder"@, Cell::Text("inbox"@)),
            ("sender_origin"@, Cell::Null),
            ("recipient_origin"@, Cell::Null),
        ],
{
    lemma_send_reads();
}

/// What [`READ_FOR`] says.
pub open spec fn read_for_reading() -> Picking {
    Picking {
        skip: 131,
        head: " FROM "@,
        columns: Seq::empty(),
        table: "message"@,
        conditions: seq![crate::sql::is_bound("id"@, 1)],
        rest: Text::End,
    }
}

proof fn lemma_read_for_reads()
    ensures
        crate::sql::spells(READ_FOR@, 131, read_for_reading().text()),
{
    reveal_strlit("SELECT id, sender, recipient, subject, body, label, sent_at, read, sender_folder, recipient_folder, sender_origin, recipient_origin FROM message WHERE id = $1");
    reveal_strlit(" FROM ");
    reveal_strlit("message");
    reveal_strlit(" WHERE ");
    reveal_strlit("id");
    reveal_strlit(" = ");
    reveal_strlit("$");
    reveal(crate::sql::Picking::text);
    reveal_with_fuel(crate::sql::where_text, 2);
    reveal_with_fuel(crate::sql::stands, 8);
    reveal_with_fuel(crate::sql::spells_by, 7);
    crate::sql::lemma_spells_by(READ_FOR@, 131, read_for_reading().text(), crate::sql::cut(137, crate::sql::cut(144, crate::sql::cut(151, crate::sql::cut(153, crate::sql::cut(156, crate::sql::cut(158, Cuts::Last)))))));
}

/// [`read_for`] reads the rows it names and no other.
pub proof fn law_read_for_reads_its_rows(
    id: MessageId,
    sent: Statement,
    row: Row,
)
    requires
        call_ensures(read_for, (id,), sent),
    ensures
        read_for_reading().is_read(sent@),
        read_for_reading().picks(sent@.binds, row) == (row["id"@] == Cell::Uuid(id.0)),
{
    lemma_read_for_reads();
    reveal_with_fuel(crate::sql::all_hold, 2);
}

/// What [`SET_READ`] says.
pub open spec fn set_read_reading() -> Writing {
    Writing {
        head: "UPDATE "@,
        table: "message"@,
        sets: seq![("read"@, crate::sql::bind(1))],
        conditions: seq![crate::sql::is_bound("id"@, 2)],
        rest: crate::sql::returning(),
    }
}

proof fn lemma_set_read_reads()
    ensures
        crate::sql::spells(SET_READ@, 0, set_read_reading().text()),
{
    reveal_strlit("UPDATE message SET read = $1 WHERE id = $2 RETURNING id, sender, recipient, subject, body, label, sent_at, read, sender_folder, recipient_folder, sender_origin, recipient_origin");
    reveal_strlit("UPDATE ");
    reveal_strlit("message");
    reveal_strlit(" SET ");
    reveal_strlit("read");
    reveal_strlit(" = ");
    reveal_strlit("$");
    reveal_strlit(" WHERE ");
    reveal_strlit("id");
    reveal_strlit(" RETURNING ");
    reveal(crate::sql::Writing::text);
    reveal_with_fuel(crate::sql::set_text, 2);
    reveal_with_fuel(crate::sql::where_text, 2);
    reveal_with_fuel(crate::sql::stands, 12);
    reveal_with_fuel(crate::sql::spells_by, 12);
    crate::sql::lemma_spells_by(SET_READ@, 0, set_read_reading().text(), crate::sql::cut(7, crate::sql::cut(14, crate::sql::cut(19, crate::sql::cut(23, crate::sql::cut(26, crate::sql::cut(28, crate::sql::cut(35, crate::sql::cut(37, crate::sql::cut(40, crate::sql::cut(42, crate::sql::cut(53, Cuts::Last))))))))))));
}

/// [`set_read`] picks the rows it names and no other, and overwrites each column with
/// its own value.
pub proof fn law_set_read_writes_its_row(
    id: MessageId,
    read: bool,
    sent: Statement,
    row: Row,
)
    requires
        call_ensures(set_read, (id, read), sent),
    ensures
        set_read_reading().is_read(sent@),
        set_read_reading().picks(sent@.binds, row) == (row["id"@] == Cell::Uuid(id.0)),
        set_read_reading().writes(sent@.binds, row) == seq![
            ("read"@, Cell::Bool(read)),
        ],
{
    lemma_set_read_reads();
    reveal_with_fuel(crate::sql::all_hold, 2);
}

/// What [`MOVE_SENDER`] says.
pub open spec fn move_sender_reading() -> Writing {
    Writing {
        head: "UPDATE "@,
        table: "message"@,
        sets: seq![("sender_folder"@, crate::sql::bind(1)), ("sender_origin"@, crate::sql::bind(2))],
        conditions: seq![crate::sql::is_bound("id"@, 3)],
        rest: crate::sql::returning(),
    }
}

proof fn lemma_move_sender_reads()
    ensures
        crate::sql::spells(MOVE_SENDER@, 0, move_sender_reading().text()),
{
    reveal_strlit("UPDATE message SET sender_folder = $1, sender_origin = $2 WHERE id = $3 RETURNING id, sender, recipient, subject, body, label, sent_at, read, sender_folder, recipient_folder, sender_origin, recipient_origin");
    reveal_strlit("UPDATE ");
    reveal_strlit("message");
    reveal_strlit(" SET ");
    reveal_strlit("sender_folder");
    reveal_strlit(" = ");
    reveal_strlit("$");
    reveal_strlit(", ");
    reveal_strlit("sender_origin");
    reveal_strlit(" WHERE ");
    reveal_strlit("id");
    reveal_strlit(" RETURNING ");
    reveal(crate::sql::Writing::text);
    reveal_with_fuel(crate::sql::set_text, 3);
    reveal_with_fuel(crate::sql::where_text, 2);
    reveal_with_fuel(crate::sql::stands, 14);
    reveal_with_fuel(crate::sql::spells_by, 16);
    crate::sql::lemma_spells_by(MOVE_SENDER@, 0, move_sender_reading().text(), crate::sql::cut(7, crate::sql::cut(14, crate::sql::cut(19, crate::sql::cut(32, crate::sql::cut(35, crate::sql::cut(37, crate::sql::cut(39, crate::sql::cut(52, crate::sql::cut(55, crate::sql::cut(57, crate::sql::cut(64, crate::sql::cut(66, crate::sql::cut(69, crate::sql::cut(71, crate::sql::cut(82, Cuts::Last))))))))))))))));
}

/// What [`MOVE_RECIPIENT`] says.
pub open spec fn move_recipient_reading() -> Writing {
    Writing {
        head: "UPDATE "@,
        table: "message"@,
        sets: seq![("recipient_folder"@, crate::sql::bind(1)), ("recipient_origin"@, crate::sql::bind(2))],
        conditions: seq![crate::sql::is_bound("id"@, 3)],
        rest: crate::sql::returning(),
    }
}

proof fn lemma_move_recipient_reads()
    ensures
        crate::sql::spells(MOVE_RECIPIENT@, 0, move_recipient_reading().text()),
{
    reveal_strlit("UPDATE message SET recipient_folder = $1, recipient_origin = $2 WHERE id = $3 RETURNING id, sender, recipient, subject, body, label, sent_at, read, sender_folder, recipient_folder, sender_origin, recipient_origin");
    reveal_strlit("UPDATE ");
    reveal_strlit("message");
    reveal_strlit(" SET ");
    reveal_strlit("recipient_folder");
    reveal_strlit(" = ");
    reveal_strlit("$");
    reveal_strlit(", ");
    reveal_strlit("recipient_origin");
    reveal_strlit(" WHERE ");
    reveal_strlit("id");
    reveal_strlit(" RETURNING ");
    reveal(crate::sql::Writing::text);
    reveal_with_fuel(crate::sql::set_text, 3);
    reveal_with_fuel(crate::sql::where_text, 2);
    reveal_with_fuel(crate::sql::stands, 17);
    reveal_with_fuel(crate::sql::spells_by, 16);
    crate::sql::lemma_spells_by(MOVE_RECIPIENT@, 0, move_recipient_reading().text(), crate::sql::cut(7, crate::sql::cut(14, crate::sql::cut(19, crate::sql::cut(35, crate::sql::cut(38, crate::sql::cut(40, crate::sql::cut(42, crate::sql::cut(58, crate::sql::cut(61, crate::sql::cut(63, crate::sql::cut(70, crate::sql::cut(72, crate::sql::cut(75, crate::sql::cut(77, crate::sql::cut(88, Cuts::Last))))))))))))))));
}

/// What [`DROP_SENDER`] says.
pub open spec fn drop_sender_reading() -> Writing {
    Writing {
        head: "UPDATE "@,
        table: "message"@,
        sets: seq![("sender_folder"@, crate::sql::word("'deleted'"@, Cell::Text("deleted"@))), ("sender_origin"@, crate::sql::word("NULL"@, Cell::Null))],
        conditions: seq![crate::sql::is_bound("id"@, 1), Cond::Equal(crate::sql::column("sender_folder"@), crate::sql::word("'trash'"@, Cell::Text("trash"@)))],
        rest: crate::sql::returning(),
    }
}

proof fn lemma_drop_sender_reads()
    ensures
        crate::sql::spells(DROP_SENDER@, 0, drop_sender_reading().text()),
{
    reveal_strlit("UPDATE message SET sender_folder = 'deleted', sender_origin = NULL WHERE id = $1 AND sender_folder = 'trash' RETURNING id, sender, recipient, subject, body, label, sent_at, read, sender_folder, recipient_folder, sender_origin, recipient_origin");
    reveal_strlit("UPDATE ");
    reveal_strlit("message");
    reveal_strlit(" SET ");
    reveal_strlit("sender_folder");
    reveal_strlit(" = ");
    reveal_strlit("'deleted'");
    reveal_strlit(", ");
    reveal_strlit("sender_origin");
    reveal_strlit("NULL");
    reveal_strlit(" WHERE ");
    reveal_strlit("id");
    reveal_strlit("$");
    reveal_strlit(" AND ");
    reveal_strlit("'trash'");
    reveal_strlit(" RETURNING ");
    reveal(crate::sql::Writing::text);
    reveal_with_fuel(crate::sql::set_text, 3);
    reveal_with_fuel(crate::sql::where_text, 3);
    reveal_with_fuel(crate::sql::stands, 14);
    reveal_with_fuel(crate::sql::spells_by, 20);
    crate::sql::lemma_spells_by(DROP_SENDER@, 0, drop_sender_reading().text(), crate::sql::cut(7, crate::sql::cut(14, crate::sql::cut(19, crate::sql::cut(32, crate::sql::cut(35, crate::sql::cut(44, crate::sql::cut(46, crate::sql::cut(59, crate::sql::cut(62, crate::sql::cut(66, crate::sql::cut(73, crate::sql::cut(75, crate::sql::cut(78, crate::sql::cut(80, crate::sql::cut(85, crate::sql::cut(98, crate::sql::cut(101, crate::sql::cut(108, crate::sql::cut(119, Cuts::Last))))))))))))))))))));
}

/// What [`DROP_RECIPIENT`] says.
pub open spec fn drop_recipient_reading() -> Writing {
    Writing {
        head: "UPDATE "@,
        table: "message"@,
        sets: seq![("recipient_folder"@, crate::sql::word("'deleted'"@, Cell::Text("deleted"@))), ("recipient_origin"@, crate::sql::word("NULL"@, Cell::Null))],
        conditions: seq![crate::sql::is_bound("id"@, 1), Cond::Equal(crate::sql::column("recipient_folder"@), crate::sql::word("'trash'"@, Cell::Text("trash"@)))],
        rest: crate::sql::returning(),
    }
}

proof fn lemma_drop_recipient_reads()
    ensures
        crate::sql::spells(DROP_RECIPIENT@, 0, drop_recipient_reading().text()),
{
    reveal_strlit("UPDATE message SET recipient_folder = 'deleted', recipient_origin = NULL WHERE id = $1 AND recipient_folder = 'trash' RETURNING id, sender, recipient, subject, body, label, sent_at, read, sender_folder, recipient_folder, sender_origin, recipient_origin");
    reveal_strlit("UPDATE ");
    reveal_strlit("message");
    reveal_strlit(" SET ");
    reveal_strlit("recipient_folder");
    reveal_strlit(" = ");
    reveal_strlit("'deleted'");
    reveal_strlit(", ");
    reveal_strlit("recipient_origin");
    reveal_strlit("NULL");
    reveal_strlit(" WHERE ");
    reveal_strlit("id");
    reveal_strlit("$");
    reveal_strlit(" AND ");
    reveal_strlit("'trash'");
    reveal_strlit(" RETURNING ");
    reveal(crate::sql::Writing::text);
    reveal_with_fuel(crate::sql::set_text, 3);
    reveal_with_fuel(crate::sql::where_text, 3);
    reveal_with_fuel(crate::sql::stands, 17);
    reveal_with_fuel(crate::sql::spells_by, 20);
    crate::sql::lemma_spells_by(DROP_RECIPIENT@, 0, drop_recipient_reading().text(), crate::sql::cut(7, crate::sql::cut(14, crate::sql::cut(19, crate::sql::cut(35, crate::sql::cut(38, crate::sql::cut(47, crate::sql::cut(49, crate::sql::cut(65, crate::sql::cut(68, crate::sql::cut(72, crate::sql::cut(79, crate::sql::cut(81, crate::sql::cut(84, crate::sql::cut(86, crate::sql::cut(91, crate::sql::cut(107, crate::sql::cut(110, crate::sql::cut(117, crate::sql::cut(128, Cuts::Last))))))))))))))))))));
}

/// What [`REMOVE_MESSAGE`] says.
pub open spec fn remove_message_reading() -> Picking {
    Picking {
        skip: 0,
        head: "DELETE FROM "@,
        columns: Seq::empty(),
        table: "message"@,
        conditions: seq![crate::sql::is_bound("id"@, 1)],
        rest: crate::sql::returning(),
    }
}

proof fn lemma_remove_message_reads()
    ensures
        crate::sql::spells(REMOVE_MESSAGE@, 0, remove_message_reading().text()),
{
    reveal_strlit("DELETE FROM message WHERE id = $1 RETURNING id, sender, recipient, subject, body, label, sent_at, read, sender_folder, recipient_folder, sender_origin, recipient_origin");
    reveal_strlit("DELETE FROM ");
    reveal_strlit("message");
    reveal_strlit(" WHERE ");
    reveal_strlit("id");
    reveal_strlit(" = ");
    reveal_strlit("$");
    reveal_strlit(" RETURNING ");
    reveal(crate::sql::Picking::text);
    reveal_with_fuel(crate::sql::where_text, 2);
    reveal_with_fuel(crate::sql::stands, 13);
    reveal_with_fuel(crate::sql::spells_by, 8);
    crate::sql::lemma_spells_by(REMOVE_MESSAGE@, 0, remove_message_reading().text(), crate::sql::cut(12, crate::sql::cut(19, crate::sql::cut(26, crate::sql::cut(28, crate::sql::cut(31, crate::sql::cut(33, crate::sql::cut(44, Cuts::Last))))))));
}

/// A filing moves the copy of the party it is made for, and not the other's: its
/// folder and where it came from, each in its own column of its own message.
pub proof fn law_move_to_writes_its_side(
    message: &Message,
    user: UserId,
    folder: Folder,
    sent: Statement,
    row: Row,
)
    requires
        call_ensures(move_to, (message, user, folder), sent),
    ensures
        message.sender == user ==> move_sender_reading().is_read(sent@),
        message.sender == user ==> move_sender_reading().picks(sent@.binds, row) == (row["id"@] == Cell::Uuid(message.id.0)),
        message.sender == user ==> move_sender_reading().writes(sent@.binds, row) == seq![
            ("sender_folder"@, Cell::Text(folder.name())),
            ("sender_origin"@, crate::sql::opt_text(origin_name(origin_after(message.folder(user), message.origin(user), folder)))),
        ],
        message.sender != user ==> move_recipient_reading().is_read(sent@),
        message.sender != user ==> move_recipient_reading().picks(sent@.binds, row) == (row["id"@] == Cell::Uuid(message.id.0)),
        message.sender != user ==> move_recipient_reading().writes(sent@.binds, row) == seq![
            ("recipient_folder"@, Cell::Text(folder.name())),
            ("recipient_origin"@, crate::sql::opt_text(origin_name(origin_after(message.folder(user), message.origin(user), folder)))),
        ],
{
    lemma_move_sender_reads();
    lemma_move_recipient_reads();
    reveal_with_fuel(crate::sql::all_hold, 2);
}

/// A permanent delete drops the copy of its own party out of the trash, and
/// removes its own message.
pub proof fn law_delete_for_writes_its_side(
    id: MessageId,
    row: Row,
)
    ensures
        drop_sender_reading().is_read(DeleteFor::DropSide.asks(id, true)),
        drop_sender_reading().picks(DeleteFor::DropSide.asks(id, true).binds, row) == (row["id"@] == Cell::Uuid(id.0) && row["sender_folder"@] == Cell::Text("trash"@)),
        drop_sender_reading().writes(DeleteFor::DropSide.asks(id, true).binds, row) == seq![
            ("sender_folder"@, Cell::Text("deleted"@)),
            ("sender_origin"@, Cell::Null),
        ],
        drop_recipient_reading().is_read(DeleteFor::DropSide.asks(id, false)),
        drop_recipient_reading().picks(DeleteFor::DropSide.asks(id, false).binds, row) == (row["id"@] == Cell::Uuid(id.0) && row["recipient_folder"@] == Cell::Text("trash"@)),
        drop_recipient_reading().writes(DeleteFor::DropSide.asks(id, false).binds, row) == seq![
            ("recipient_folder"@, Cell::Text("deleted"@)),
            ("recipient_origin"@, Cell::Null),
        ],
        remove_message_reading().is_read(DeleteFor::RemoveRow.asks(id, true)),
        remove_message_reading().picks(DeleteFor::RemoveRow.asks(id, true).binds, row) == (row["id"@] == Cell::Uuid(id.0)),
        remove_message_reading().is_read(DeleteFor::RemoveRow.asks(id, false)),
        remove_message_reading().picks(DeleteFor::RemoveRow.asks(id, false).binds, row) == (row["id"@] == Cell::Uuid(id.0)),
{
    lemma_drop_sender_reads();
    lemma_drop_recipient_reads();
    lemma_remove_message_reads();
    reveal_with_fuel(crate::sql::all_hold, 3);
}

/// A listing's narrowings are bound to the caller's: what stands behind `read` is
/// the flag that is asked for, and what both columns are searched for is the
/// needle, each at its own place among the bound values.
pub proof fn law_narrowings_bind_their_values(
    user: UserId,
    folder: Folder,
    read: Option<bool>,
    search: Option<Search>,
)
    ensures
        ({
            let binds = list_binds(user, folder, read, search);
            &&& binds[0] == ParamView::Uuid(user.0)
            &&& folder == Folder::Inbox ==> binds[1] == ParamView::Text(folder.name())
            &&& list_where(user, folder, read, None) == folder_where(folder) + (match read {
                Some(flag) => " AND read = "@ + crate::text::placeholder(
                    binds.index_of(ParamView::Bool(flag)) as nat + 1,
                ),
                None => Seq::empty(),
            })
        }),
        search is Some && (search->0).needle@.len() > 0 ==> exists|n: nat|
            #![trigger crate::text::placeholder(n)]
            1 <= n <= list_binds(user, folder, read, search).len() && list_binds(
                user,
                folder,
                read,
                search,
            )[n - 1] == ParamView::Text((search->0).needle@) && list_where(
                user,
                folder,
                read,
                search,
            ) == list_where(user, folder, read, None) + (" AND (position("@
                + crate::text::placeholder(n) + " in "@ + (search->0).subject@
                + ") > 0 OR position("@ + crate::text::placeholder(n) + " in "@
                + (search->0).body@ + ") > 0)"@),
{
    let binds = list_binds(user, folder, read, search);
    let spent = folder_binds(user, folder).len();
    if let Some(flag) = read {
        let at = spent as int;
        assert(binds[at] == ParamView::Bool(flag));
        assert(binds.contains(ParamView::Bool(flag)));
        let i = binds.index_of(ParamView::Bool(flag));
        assert(binds[i] == ParamView::Bool(flag));
        assert(i == at);
    }
    assert(list_where(user, folder, read, None) =~= folder_where(folder) + read_where(
        spent + 1,
        read,
    ));
    if search is Some && (search->0).needle@.len() > 0 {
        let n = spent + read_binds(read).len() + 1;
        assert(binds[n - 1] == ParamView::Text((search->0).needle@));
        assert(list_where(user, folder, read, search) =~= list_where(user, folder, read, None)
            + search_where(n, search));
        assert(search_where(n, search) == " AND (position("@ + crate::text::placeholder(n)
            + " in "@ + (search->0).subject@ + ") > 0 OR position("@ + crate::text::placeholder(n)
            + " in "@ + (search->0).body@ + ") > 0)"@);
    }
}

/// What [`FROM_SENT`] says.
pub open spec fn from_sent_reading() -> Picking {
    Picking {
        skip: 0,
        head: ""@,
        columns: Seq::empty(),
        table: "message"@,
        conditions: seq![crate::sql::is_bound("sender"@, 1), Cond::Equal(crate::sql::column("sender_folder"@), crate::sql::word("'sent'"@, Cell::Text("sent"@)))],
        rest: Text::End,
    }
}

proof fn lemma_from_sent_reads()
    ensures
        crate::sql::spells(FROM_SENT@, 0, from_sent_reading().text()),
{
    reveal_strlit("message WHERE sender = $1 AND sender_folder = 'sent'");
    reveal_strlit("");
    reveal_strlit("message");
    reveal_strlit(" WHERE ");
    reveal_strlit("sender");
    reveal_strlit(" = ");
    reveal_strlit("$");
    reveal_strlit(" AND ");
    reveal_strlit("sender_folder");
    reveal_strlit("'sent'");
    reveal(crate::sql::Picking::text);
    reveal_with_fuel(crate::sql::where_text, 3);
    reveal_with_fuel(crate::sql::stands, 14);
    reveal_with_fuel(crate::sql::spells_by, 11);
    crate::sql::lemma_spells_by(FROM_SENT@, 0, from_sent_reading().text(), crate::sql::cut(0, crate::sql::cut(7, crate::sql::cut(14, crate::sql::cut(20, crate::sql::cut(23, crate::sql::cut(25, crate::sql::cut(30, crate::sql::cut(43, crate::sql::cut(46, crate::sql::cut(52, Cuts::Last)))))))))));
}

/// What [`FROM_HOME`] says.
pub open spec fn from_home_reading() -> Picking {
    Picking {
        skip: 0,
        head: ""@,
        columns: Seq::empty(),
        table: "message"@,
        conditions: seq![crate::sql::is_bound("recipient"@, 1), crate::sql::is_bound("recipient_folder"@, 2)],
        rest: Text::End,
    }
}

proof fn lemma_from_home_reads()
    ensures
        crate::sql::spells(FROM_HOME@, 0, from_home_reading().text()),
{
    reveal_strlit("message WHERE recipient = $1 AND recipient_folder = $2");
    reveal_strlit("");
    reveal_strlit("message");
    reveal_strlit(" WHERE ");
    reveal_strlit("recipient");
    reveal_strlit(" = ");
    reveal_strlit("$");
    reveal_strlit(" AND ");
    reveal_strlit("recipient_folder");
    reveal(crate::sql::Picking::text);
    reveal_with_fuel(crate::sql::where_text, 3);
    reveal_with_fuel(crate::sql::stands, 17);
    reveal_with_fuel(crate::sql::spells_by, 11);
    crate::sql::lemma_spells_by(FROM_HOME@, 0, from_home_reading().text(), crate::sql::cut(0, crate::sql::cut(7, crate::sql::cut(14, crate::sql::cut(23, crate::sql::cut(26, crate::sql::cut(28, crate::sql::cut(33, crate::sql::cut(49, crate::sql::cut(52, crate::sql::cut(54, Cuts::Last)))))))))));
}

/// The text of [`FROM_ARCHIVE`], taken apart at its placeholders.
pub open spec fn from_archive_text() -> Text {
    crate::sql::before("message WHERE ((recipient = "@, crate::sql::before(crate::text::placeholder(1), crate::sql::before(" AND recipient_folder = 'archive') OR (sender = "@, crate::sql::before(crate::text::placeholder(1), crate::sql::before(" AND sender_folder = 'archive'))"@, Text::End)))))
}

proof fn lemma_from_archive_reads()
    ensures
        crate::sql::spells(FROM_ARCHIVE@, 0, from_archive_text()),
{
    reveal_strlit("message WHERE ((recipient = $1 AND recipient_folder = 'archive') OR (sender = $1 AND sender_folder = 'archive'))");
    reveal_strlit("message WHERE ((recipient = ");
    reveal_strlit("$");
    reveal_strlit(" AND recipient_folder = 'archive') OR (sender = ");
    reveal_strlit(" AND sender_folder = 'archive'))");
    reveal_with_fuel(crate::sql::stands, 49);
    reveal_with_fuel(crate::sql::spells_by, 6);
    crate::sql::lemma_spells_by(FROM_ARCHIVE@, 0, from_archive_text(), crate::sql::cut(28, crate::sql::cut(30, crate::sql::cut(78, crate::sql::cut(80, crate::sql::cut(112, Cuts::Last))))));
}

/// The text of [`FROM_TRASH`], taken apart at its placeholders.
pub open spec fn from_trash_text() -> Text {
    crate::sql::before("message WHERE ((recipient = "@, crate::sql::before(crate::text::placeholder(1), crate::sql::before(" AND recipient_folder = 'trash') OR (sender = "@, crate::sql::before(crate::text::placeholder(1), crate::sql::before(" AND sender_folder = 'trash'))"@, Text::End)))))
}

proof fn lemma_from_trash_reads()
    ensures
        crate::sql::spells(FROM_TRASH@, 0, from_trash_text()),
{
    reveal_strlit("message WHERE ((recipient = $1 AND recipient_folder = 'trash') OR (sender = $1 AND sender_folder = 'trash'))");
    reveal_strlit("message WHERE ((recipient = ");
    reveal_strlit("$");
    reveal_strlit(" AND recipient_folder = 'trash') OR (sender = ");
    reveal_strlit(" AND sender_folder = 'trash'))");
    reveal_with_fuel(crate::sql::stands, 47);
    reveal_with_fuel(crate::sql::spells_by, 6);
    crate::sql::lemma_spells_by(FROM_TRASH@, 0, from_trash_text(), crate::sql::cut(28, crate::sql::cut(30, crate::sql::cut(76, crate::sql::cut(78, crate::sql::cut(108, Cuts::Last))))));
}

/// A folder is listed of its own user: the sent folder holds what the user sent,
/// the inbox what was sent to them, and the archive and the trash ask for the
/// user on both sides.
pub proof fn law_folder_lists_its_user(
    user: UserId,
    read: Option<bool>,
    search: Option<Search>,
    row: Row,
)
    ensures
        crate::sql::spells(folder_where(Folder::Sent), 0, from_sent_reading().text()),
        from_sent_reading().picks(list_binds(user, Folder::Sent, read, search), row) == (
        row["sender"@] == Cell::Uuid(user.0) && row["sender_folder"@] == Cell::Text("sent"@)),
        crate::sql::spells(folder_where(Folder::Inbox), 0, from_home_reading().text()),
        from_home_reading().picks(list_binds(user, Folder::Inbox, read, search), row) == (
        row["recipient"@] == Cell::Uuid(user.0) && row["recipient_folder"@] == Cell::Text(
            "inbox"@,
        )),
        crate::sql::spells(folder_where(Folder::Archive), 0, from_archive_text()),
        crate::sql::spells(folder_where(Folder::Trash), 0, from_trash_text()),
{
    lemma_from_sent_reads();
    lemma_from_home_reads();
    lemma_from_archive_reads();
    lemma_from_trash_reads();
    reveal_with_fuel(crate::sql::all_hold, 3);
}

} // verus!
