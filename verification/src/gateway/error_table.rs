//! The fixed table that maps the phrases and numeric close codes a gateway
//! server sends to the failure they announce.

use vstd::prelude::*;

use crate::errors::GatewayError;

verus! {

/// Number of entries in the table.
pub const ERROR_TABLE_LEN: usize = 31;

/// The table itself: each entry pairs a key, already in normalised form, with
/// the failure it stands for. Every failure is listed under its phrase (some
/// under two spellings) and under its close code.
pub open spec fn error_table() -> Seq<(Seq<char>, GatewayError)> {
    seq![
        ("unknown error"@, GatewayError::Unknown),
        ("4000"@, GatewayError::Unknown),
        ("unknown opcode"@, GatewayError::UnknownOpcode),
        ("4001"@, GatewayError::UnknownOpcode),
        ("decode error"@, GatewayError::Decode),
        ("error while decoding payload"@, GatewayError::Decode),
        ("4002"@, GatewayError::Decode),
        ("not authenticated"@, GatewayError::NotAuthenticated),
        ("4003"@, GatewayError::NotAuthenticated),
        ("authentication failed"@, GatewayError::AuthenticationFailed),
        ("4004"@, GatewayError::AuthenticationFailed),
        ("already authenticated"@, GatewayError::AlreadyAuthenticated),
        ("4005"@, GatewayError::AlreadyAuthenticated),
        ("invalid seq"@, GatewayError::InvalidSequenceNumber),
        ("4007"@, GatewayError::InvalidSequenceNumber),
        ("rate limited"@, GatewayError::RateLimited),
        ("4008"@, GatewayError::RateLimited),
        ("session timed out"@, GatewayError::SessionTimedOut),
        ("4009"@, GatewayError::SessionTimedOut),
        ("invalid shard"@, GatewayError::InvalidShard),
        ("4010"@, GatewayError::InvalidShard),
        ("sharding required"@, GatewayError::ShardingRequired),
        ("4011"@, GatewayError::ShardingRequired),
        ("invalid api version"@, GatewayError::InvalidAPIVersion),
        ("4012"@, GatewayError::InvalidAPIVersion),
        ("invalid intent(s)"@, GatewayError::InvalidIntents),
        ("invalid intent"@, GatewayError::InvalidIntents),
        ("4013"@, GatewayError::InvalidIntents),
        ("disallowed intent(s)"@, GatewayError::DisallowedIntents),
        ("disallowed intents"@, GatewayError::DisallowedIntents),
        ("4014"@, GatewayError::DisallowedIntents),
    ]
}

/// The failure of the first entry at or after `start` whose key is `key`.
pub open spec fn lookup_from(key: Seq<char>, start: int) -> Option<GatewayError>
    decreases error_table().len() - start,
{
    if start < 0 || start >= error_table().len() {
        None
    } else if error_table()[start].0 == key {
        Some(error_table()[start].1)
    } else {
        lookup_from(key, start + 1)
    }
}

/// The failure that a normalised key stands for, if the table lists it.
pub open spec fn error_for_key(key: Seq<char>) -> Option<GatewayError> {
    lookup_from(key, 0)
}

/// The table as data, entry for entry the one that `error_table` describes.
pub fn error_entries() -> (entries: Vec<(&'static str, GatewayError)>)
    ensures
        entries@.len() == error_table().len(),
        entries@.len() == ERROR_TABLE_LEN,
        forall|i: int|
            0 <= i < entries@.len() ==> (#[trigger] entries@[i]).0@ == error_table()[i].0
                && entries@[i].1 == error_table()[i].1,
{
    let entries = vec![
        ("unknown error", GatewayError::Unknown),
        ("4000", GatewayError::Unknown),
        ("unknown opcode", GatewayError::UnknownOpcode),
        ("4001", GatewayError::UnknownOpcode),
        ("decode error", GatewayError::Decode),
        ("error while decoding payload", GatewayError::Decode),
        ("4002", GatewayError::Decode),
        ("not authenticated", GatewayError::NotAuthenticated),
        ("4003", GatewayError::NotAuthenticated),
        ("authentication failed", GatewayError::AuthenticationFailed),
        ("4004", GatewayError::AuthenticationFailed),
        ("already authenticated", GatewayError::AlreadyAuthenticated),
        ("4005", GatewayError::AlreadyAuthenticated),
        ("invalid seq", GatewayError::InvalidSequenceNumber),
        ("4007", GatewayError::InvalidSequenceNumber),
        ("rate limited", GatewayError::RateLimited),
        ("4008", GatewayError::RateLimited),
        ("session timed out", GatewayError::SessionTimedOut),
        ("4009", GatewayError::SessionTimedOut),
        ("invalid shard", GatewayError::InvalidShard),
        ("4010", GatewayError::InvalidShard),
        ("sharding required", GatewayError::ShardingRequired),
        ("4011", GatewayError::ShardingRequired),
        ("invalid api version", GatewayError::InvalidAPIVersion),
        ("4012", GatewayError::InvalidAPIVersion),
        ("invalid intent(s)", GatewayError::InvalidIntents),
        ("invalid intent", GatewayError::InvalidIntents),
        ("4013", GatewayError::InvalidIntents),
        ("disallowed intent(s)", GatewayError::DisallowedIntents),
        ("disallowed intents", GatewayError::DisallowedIntents),
        ("4014", GatewayError::DisallowedIntents),
    ];
    entries
}

/// Looks a normalised key up in the table.
pub fn lookup_error(key: &str) -> (found: Option<GatewayError>)
    ensures
        found == error_for_key(key@),
{
    let wanted: String = key.to_owned();
    let entries = error_entries();
    let mut index: usize = 0;
    while index < entries.len()
        invariant
            index <= entries@.len(),
            entries@.len() == error_table().len(),
            forall|i: int|
                0 <= i < entries@.len() ==> (#[trigger] entries@[i]).0@ == error_table()[i].0
                    && entries@[i].1 == error_table()[i].1,
            wanted@ == key@,
            error_for_key(key@) == lookup_from(key@, index as int),
        decreases entries@.len() - index,
    {
        let entry = &entries[index];
        let phrase: String = entry.0.to_owned();
        if wanted == phrase {
            return Some(entry.1);
        }
        index = index + 1;
    }
    None
}

/// What tells two keys of the table apart: the length and three characters.
pub open spec fn fingerprint(key: Seq<char>) -> (nat, char, char, char) {
    (key.len(), key[0], key[2], key[3])
}

/// The fingerprint of each entry's key, by position.
pub open spec fn entry_fingerprint(index: int) -> (nat, char, char, char) {
    if index == 0 {
        (13, 'u', 'k', 'n')
    } else if index == 1 {
        (4, '4', '0', '0')
    } else if index == 2 {
        (14, 'u', 'k', 'n')
    } else if index == 3 {
        (4, '4', '0', '1')
    } else if index == 4 {
        (12, 'd', 'c', 'o')
    } else if index == 5 {
        (28, 'e', 'r', 'o')
    } else if index == 6 {
        (4, '4', '0', '2')
    } else if index == 7 {
        (17, 'n', 't', ' ')
    } else if index == 8 {
        (4, '4', '0', '3')
    } else if index == 9 {
        (21, 'a', 't', 'h')
    } else if index == 10 {
        (4, '4', '0', '4')
    } else if index == 11 {
        (21, 'a', 'r', 'e')
    } else if index == 12 {
        (4, '4', '0', '5')
    } else if index == 13 {
        (11, 'i', 'v', 'a')
    } else if index == 14 {
        (4, '4', '0', '7')
    } else if index == 15 {
        (12, 'r', 't', 'e')
    } else if index == 16 {
        (4, '4', '0', '8')
    } else if index == 17 {
        (17, 's', 's', 's')
    } else if index == 18 {
        (4, '4', '0', '9')
    } else if index == 19 {
        (13, 'i', 'v', 'a')
    } else if index == 20 {
        (4, '4', '1', '0')
    } else if index == 21 {
        (17, 's', 'a', 'r')
    } else if index == 22 {
        (4, '4', '1', '1')
    } else if index == 23 {
        (19, 'i', 'v', 'a')
    } else if index == 24 {
        (4, '4', '1', '2')
    } else if index == 25 {
        (17, 'i', 'v', 'a')
    } else if index == 26 {
        (14, 'i', 'v', 'a')
    } else if index == 27 {
        (4, '4', '1', '3')
    } else if index == 28 {
        (20, 'd', 's', 'a')
    } else if index == 29 {
        (18, 'd', 's', 'a')
    } else {
        (4, '4', '1', '4')
    }
}

/// Every key of the table has the fingerprint listed for its position, is at
/// least four characters long, and does not end in a period.
pub proof fn lemma_table_keys()
    ensures
        error_table().len() == 31,
        forall|i: int|
            0 <= i < 31 ==> {
                let key = (#[trigger] error_table()[i]).0;
                &&& fingerprint(key) == entry_fingerprint(i)
                &&& key.len() >= 4
                &&& key.last() != '.'
            },
{
    reveal_strlit("unknown error");
    reveal_strlit("4000");
    reveal_strlit("unknown opcode");
    reveal_strlit("4001");
    reveal_strlit("decode error");
    reveal_strlit("error while decoding payload");
    reveal_strlit("4002");
    reveal_strlit("not authenticated");
    reveal_strlit("4003");
    reveal_strlit("authentication failed");
    reveal_strlit("4004");
    reveal_strlit("already authenticated");
    reveal_strlit("4005");
    reveal_strlit("invalid seq");
    reveal_strlit("4007");
    reveal_strlit("rate limited");
    reveal_strlit("4008");
    reveal_strlit("session timed out");
    reveal_strlit("4009");
    reveal_strlit("invalid shard");
    reveal_strlit("4010");
    reveal_strlit("sharding required");
    reveal_strlit("4011");
    reveal_strlit("invalid api version");
    reveal_strlit("4012");
    reveal_strlit("invalid intent(s)");
    reveal_strlit("invalid intent");
    reveal_strlit("4013");
    reveal_strlit("disallowed intent(s)");
    reveal_strlit("disallowed intents");
    reveal_strlit("4014");
}

/// No two entries of the table share a key.
pub proof fn lemma_table_keys_distinct(i: int, j: int)
    requires
        0 <= i < j < error_table().len(),
    ensures
        error_table()[i].0 != error_table()[j].0,
{
    lemma_table_keys();
    assert(entry_fingerprint(i) != entry_fingerprint(j));
}

/// A key that no entry before `index` holds is found at `index`.
pub proof fn lemma_lookup_reaches(key: Seq<char>, start: int, index: int)
    requires
        0 <= start <= index < error_table().len(),
        error_table()[index].0 == key,
        forall|j: int| start <= j < index ==> error_table()[j].0 != key,
    ensures
        lookup_from(key, start) == Some(error_table()[index].1),
    decreases index - start,
{
    if start < index {
        lemma_lookup_reaches(key, start + 1, index);
    }
}

/// Looking up the key of an entry gives the failure of that very entry.
pub proof fn lemma_entry_resolves(index: int)
    requires
        0 <= index < error_table().len(),
    ensures
        error_for_key(error_table()[index].0) == Some(error_table()[index].1),
{
    let key = error_table()[index].0;
    assert forall|j: int| 0 <= j < index implies error_table()[j].0 != key by {
        lemma_table_keys_distinct(j, index);
    }
    lemma_lookup_reaches(key, 0, index);
}

} // verus!
