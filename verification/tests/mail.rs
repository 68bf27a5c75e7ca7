use school_db::id::{MessageId, Timestamp, UserId};
use school_db::message::{
    delete_for, list_folder, move_to, needle, read_for, readable, send, set_read, DeleteFor,
    Filing, Folder, Message, NotInTrash, Search,
};
use school_db::page::Uuid;
use school_db::transaction::Step;

const SENDER: UserId = UserId(Uuid(1));
const RECIPIENT: UserId = UserId(Uuid(2));
const STRANGER: UserId = UserId(Uuid(3));

fn message() -> Message {
    Message {
        id: MessageId(Uuid(9)),
        sender: SENDER,
        recipient: RECIPIENT,
        subject: "duyuru".to_string(),
        body: "gezi".to_string(),
        label: None,
        sent_at: Timestamp(1),
        read: false,
        sender_folder: Folder::Sent,
        recipient_folder: Folder::Inbox,
        sender_origin: None,
        recipient_origin: None,
    }
}

fn folder_named(name: &str) -> Folder {
    [
        Folder::Inbox,
        Folder::Sent,
        Folder::Archive,
        Folder::Trash,
        Folder::Deleted,
    ]
    .into_iter()
    .find(|folder| folder.as_str() == name)
    .unwrap()
}

/// Files a copy the way the statement says.
fn file(message: &mut Message, user: UserId, folder: Folder) {
    let statement = move_to(message, user, folder);
    let binds = format!("{:?}", statement.binds);
    let origin = if binds.contains("OptText(None)") {
        None
    } else {
        let tail = binds.split("OptText(Some(\"").nth(1).unwrap();
        Some(folder_named(tail.split('"').next().unwrap()))
    };
    if statement.sql.contains("sender_folder = $1") {
        message.sender_folder = folder;
        message.sender_origin = origin;
    } else {
        message.recipient_folder = folder;
        message.recipient_origin = origin;
    }
}

#[test]
fn filing_remembers_the_folder_it_left() {
    let mut mail = message();
    file(&mut mail, RECIPIENT, Folder::Archive);
    assert_eq!(mail.recipient_origin, Some(Folder::Inbox));
    file(&mut mail, RECIPIENT, Folder::Trash);
    assert_eq!(mail.recipient_origin, Some(Folder::Archive));
    // A move to where it is keeps what it remembered.
    file(&mut mail, RECIPIENT, Folder::Trash);
    assert_eq!(mail.recipient_origin, Some(Folder::Archive));
    // Nothing is remembered as coming from the trash.
    file(&mut mail, RECIPIENT, Folder::Archive);
    assert_eq!(mail.recipient_origin, None);
    file(&mut mail, RECIPIENT, Folder::Inbox);
    assert_eq!(mail.recipient_origin, None);
    assert_eq!(mail.recipient_folder, Folder::Inbox);
}

#[test]
fn a_party_never_touches_the_other_partys_copy() {
    let mut mail = message();
    file(&mut mail, SENDER, Folder::Trash);
    assert_eq!(mail.sender_folder, Folder::Trash);
    assert_eq!(mail.sender_origin, Some(Folder::Sent));
    assert_eq!(mail.recipient_folder, Folder::Inbox);
    file(&mut mail, RECIPIENT, Folder::Archive);
    assert_eq!(mail.sender_folder, Folder::Trash);
    assert_eq!(mail.recipient_origin, Some(Folder::Inbox));
}

#[test]
fn a_copy_is_dropped_only_out_of_the_trash() {
    let step = delete_for(DeleteFor::DropSide, None);
    assert!(matches!(step, Step::Abort(NotInTrash)));
    assert_eq!(
        format!("{:?}", NotInTrash.error()),
        "Conflict(\"only messages in the trash can be permanently deleted\")"
    );
    let kept = Filing {
        sender_folder: Folder::Deleted,
        recipient_folder: Folder::Inbox,
    };
    assert!(matches!(
        delete_for(DeleteFor::DropSide, Some(kept)),
        Step::Commit(())
    ));
    let nobody = Filing {
        sender_folder: Folder::Deleted,
        recipient_folder: Folder::Deleted,
    };
    assert!(matches!(
        delete_for(DeleteFor::DropSide, Some(nobody)),
        Step::Ask(DeleteFor::RemoveRow)
    ));
    assert!(matches!(
        delete_for(DeleteFor::RemoveRow, None),
        Step::Commit(())
    ));
    let id = MessageId(Uuid(9));
    assert!(DeleteFor::DropSide
        .statement(id, true)
        .sql
        .contains("WHERE id = $1 AND sender_folder = 'trash'"));
    assert!(DeleteFor::DropSide
        .statement(id, false)
        .sql
        .contains("WHERE id = $1 AND recipient_folder = 'trash'"));
    assert!(DeleteFor::RemoveRow
        .statement(id, true)
        .sql
        .starts_with("DELETE FROM message"));
}

#[test]
fn only_a_party_that_keeps_its_copy_reads_it() {
    assert!(readable(Some(message()), SENDER).is_some());
    assert!(readable(Some(message()), RECIPIENT).is_some());
    assert!(readable(Some(message()), STRANGER).is_none());
    assert!(readable(None, SENDER).is_none());
    let mut dropped = message();
    dropped.sender_folder = Folder::Deleted;
    assert!(readable(Some(dropped), SENDER).is_none());
    let mut dropped = message();
    dropped.sender_folder = Folder::Deleted;
    assert!(readable(Some(dropped), RECIPIENT).is_some());
    assert_eq!(
        format!("{:?}", read_for(MessageId(Uuid(9))).binds),
        "[Uuid(Uuid(9))]"
    );
}

fn search(needle: &str) -> Search<'_> {
    Search {
        needle,
        subject: "fold(subject)",
        body: "fold(body)",
    }
}

#[test]
fn the_inbox_spends_a_placeholder_on_its_folder() {
    let (page, count) = list_folder(
        RECIPIENT,
        Folder::Inbox,
        Some(false),
        Some(search("etut")),
        Some(1),
        0,
    );
    assert_eq!(
        page.sql,
        "SELECT * FROM message WHERE recipient = $1 AND recipient_folder = $2 AND read = $3 \
         AND (position($4 in fold(subject)) > 0 OR position($4 in fold(body)) > 0) \
         ORDER BY id DESC LIMIT $5 OFFSET $6"
    );
    assert_eq!(
        format!("{:?}", page.binds),
        "[Uuid(Uuid(2)), Text(\"inbox\"), Bool(false), Text(\"etut\"), I64(1), I64(0)]"
    );
    let count = count.unwrap();
    assert!(count.sql.starts_with("SELECT count(*) FROM message WHERE recipient = $1"));
    assert_eq!(
        format!("{:?}", count.binds),
        "[Uuid(Uuid(2)), Text(\"inbox\"), Bool(false), Text(\"etut\")]"
    );
}

#[test]
fn a_filter_narrows_both_sides_of_a_filed_folder() {
    let (page, count) = list_folder(SENDER, Folder::Archive, Some(true), None, None, 0);
    assert_eq!(
        page.sql,
        "SELECT * FROM message WHERE ((recipient = $1 AND recipient_folder = 'archive') OR \
         (sender = $1 AND sender_folder = 'archive')) AND read = $2 ORDER BY id DESC"
    );
    assert_eq!(format!("{:?}", page.binds), "[Uuid(Uuid(1)), Bool(true)]");
    assert!(count.is_none());
    let (page, _) = list_folder(SENDER, Folder::Trash, None, Some(search("q")), None, 0);
    assert!(page
        .sql
        .contains("sender_folder = 'trash')) AND (position($2 in fold(subject)) > 0"));
}

#[test]
fn a_blank_needle_searches_nothing() {
    assert_eq!(needle("   "), "");
    assert_eq!(needle("  etut\t"), "etut");
    // Only the inbox binds the folder of its predicate.
    let (gone, _) = list_folder(SENDER, Folder::Deleted, None, None, None, 0);
    assert!(gone.sql.contains("recipient = $1 AND recipient_folder = $2"));
    assert_eq!(gone.binds.len(), 1);
    let (blank, _) = list_folder(SENDER, Folder::Sent, None, Some(search("")), None, 0);
    let (absent, _) = list_folder(SENDER, Folder::Sent, None, None, None, 0);
    assert_eq!(blank.sql, absent.sql);
    assert_eq!(
        blank.sql,
        "SELECT * FROM message WHERE sender = $1 AND sender_folder = 'sent' ORDER BY id DESC"
    );
}

#[test]
fn a_sent_message_is_unread_in_both_home_folders() {
    let statement = send(
        MessageId(Uuid(9)),
        SENDER,
        RECIPIENT,
        "s",
        "b",
        Some("acil"),
        Timestamp(4),
    );
    assert!(statement.sql.contains("false, 'sent', 'inbox', NULL, NULL"));
    assert_eq!(
        format!("{:?}", statement.binds),
        "[Uuid(Uuid(9)), Uuid(Uuid(1)), Uuid(Uuid(2)), Text(\"s\"), Text(\"b\"), \
         OptText(Some(\"acil\")), I64(4)]"
    );
    let flipped = set_read(MessageId(Uuid(9)), true);
    assert!(flipped.sql.starts_with("UPDATE message SET read = $1 WHERE id = $2"));
}
