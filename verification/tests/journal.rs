use coerce::actor::message::MessageUnwrapErr;
use coerce::persistence::redis::{
    delete_command, read_messages_command, read_snapshot_command, write_command,
};
use coerce::persistence::{collect_entries, first_value, read_journal_entry, JournalEntry};

fn args(cmd: &redis::Cmd) -> Vec<Vec<u8>> {
    cmd.args_iter()
        .map(|arg| match arg {
            redis::Arg::Simple(bytes) => bytes.to_vec(),
            _ => panic!("cursor"),
        })
        .collect()
}

fn texts(parts: &[&str]) -> Vec<Vec<u8>> {
    parts.iter().map(|p| p.as_bytes().to_vec()).collect()
}

fn entry(sequence: i64) -> JournalEntry {
    JournalEntry { sequence, payload_type: "Snapshot".to_string(), bytes: vec![sequence as u8] }
}

#[test]
fn write_adds_the_entry_scored_by_its_sequence() {
    let cmd = write_command("actor-1", 42, &vec![0, 159, 255]);
    assert_eq!(
        args(&cmd),
        vec![b"ZADD".to_vec(), b"actor-1".to_vec(), b"42".to_vec(), vec![0, 159, 255]]
    );
    assert_eq!(
        cmd.get_packed_command(),
        b"*4\r\n$4\r\nZADD\r\n$7\r\nactor-1\r\n$2\r\n42\r\n$3\r\n\x00\x9f\xff\r\n".to_vec()
    );
    assert_eq!(args(&write_command("k", 0, &vec![]))[2], b"0".to_vec());
    assert_eq!(args(&write_command("k", -7, &vec![]))[2], b"-7".to_vec());
    assert_eq!(args(&write_command("k", i64::MAX, &vec![]))[2], b"9223372036854775807".to_vec());
    assert_eq!(args(&write_command("k", i64::MIN, &vec![]))[2], b"-9223372036854775808".to_vec());
    assert_eq!(args(&write_command("k", 1000, &vec![]))[2], b"1000".to_vec());
    assert_eq!(args(&write_command("schlüssel", 1, &vec![]))[1], "schlüssel".as_bytes().to_vec());
}

#[test]
fn snapshot_is_the_entry_with_the_highest_score() {
    assert_eq!(
        args(&read_snapshot_command("actor-1")),
        texts(&["ZRANGE", "actor-1", "+inf", "-inf", "BYSCORE", "REV", "LIMIT", "0", "1"])
    );
}

#[test]
fn messages_are_read_from_a_sequence_on() {
    assert_eq!(
        args(&read_messages_command("actor-1", 17)),
        texts(&["ZRANGE", "actor-1", "17", "+inf", "BYSCORE"])
    );
    assert_eq!(args(&read_messages_command("", -1))[2], b"-1".to_vec());
}

#[test]
fn delete_names_every_key() {
    assert_eq!(
        args(&delete_command(&vec!["a".to_string(), "b".to_string(), "a".to_string()])),
        texts(&["DEL", "a", "b", "a"])
    );
    assert_eq!(args(&delete_command(&vec![])), texts(&["DEL"]));
}

#[test]
fn first_value_is_the_snapshot() {
    assert_eq!(first_value(None), None);
    assert_eq!(first_value(Some(vec![])), None);
    assert_eq!(first_value(Some(vec![vec![1], vec![2]])), Some(vec![1]));
    assert_eq!(first_value(Some(vec![vec![]])), Some(vec![]));
}

#[test]
fn entries_are_collected_or_none_is() {
    let all = collect_entries(vec![Some(entry(1)), Some(entry(2))]).expect("entries");
    let sequences: Vec<i64> = all.iter().map(|e| e.sequence).collect();
    assert_eq!(sequences, vec![1, 2]);
    assert_eq!(all[1].bytes, vec![2]);
    assert!(collect_entries(vec![Some(entry(1)), None, Some(entry(3))]).is_none());
    assert_eq!(collect_entries(vec![]).map(|v| v.len()), Some(0));
    let read = read_journal_entry(Ok::<_, MessageUnwrapErr>(entry(9))).expect("entry");
    assert_eq!(read.sequence, 9);
    assert_eq!(read.payload_type, "Snapshot");
}
