//! The settings file of the bots: one JSON object, keyed by the keys of
//! the bots, and what is read from it. A file that cannot be read as
//! expected gives the defaults, never an error.

use crate::json::{
    array_item_str, array_len, bool_member, json_array_len, json_array_str, json_bool, json_keys,
    json_member, json_str, json_uint, member_json, object_keys, opt_view, str_member, uint_member,
};
use crate::session::clone_texts;
use crate::settings::BotSettings;
use crate::text::{chars_of, parse_i64, parse_signed, signed_decimal, signed_decimal_of, string_of, string_views};
use std::collections::HashMap;
use vstd::prelude::*;

verus! {
broadcast use vstd::std_specs::hash::group_hash_axioms;

/// The texts of a map from conversations to strings.
pub open spec fn text_map(m: Map<i64, String>) -> Map<i64, Seq<char>> {
    m.map_values(|s: String| s@)
}

/// The texts of a map from conversations to lists of strings.
pub open spec fn list_map(m: Map<i64, Vec<String>>) -> Map<i64, Seq<Seq<char>>> {
    m.map_values(|v: Vec<String>| string_views(v@))
}

/// The strings that an object holds under the given keys, by the
/// conversations that the keys name. A key that names no conversation, and
/// a value that is no string, are passed over; of two keys that name one
/// conversation the later counts.
pub open spec fn string_entries(obj: Seq<char>, keys: Seq<Seq<char>>) -> Map<i64, Seq<char>>
    decreases keys.len(),
{
    if keys.len() == 0 {
        Map::empty()
    } else {
        let before = string_entries(obj, keys.drop_last());
        match (parse_i64(keys.last()), json_str(obj, keys.last())) {
            (Some(c), Some(v)) => before.insert(c, v),
            _ => before,
        }
    }
}

/// The booleans that an object holds under the given keys.
pub open spec fn bool_entries(obj: Seq<char>, keys: Seq<Seq<char>>) -> Map<i64, bool>
    decreases keys.len(),
{
    if keys.len() == 0 {
        Map::empty()
    } else {
        let before = bool_entries(obj, keys.drop_last());
        match (parse_i64(keys.last()), json_bool(obj, keys.last())) {
            (Some(c), Some(v)) => before.insert(c, v),
            _ => before,
        }
    }
}

/// The strings among the first `n` elements of the array under `key`.
pub open spec fn array_strings(text: Seq<char>, key: Seq<char>, n: nat) -> Seq<Seq<char>>
    decreases n,
{
    if n == 0 {
        Seq::empty()
    } else {
        let before = array_strings(text, key, (n - 1) as nat);
        match json_array_str(text, key, (n - 1) as usize) {
            Some(s) => before.push(s),
            None => before,
        }
    }
}

/// The lists of strings that an object holds under the given keys.
pub open spec fn list_entries(obj: Seq<char>, keys: Seq<Seq<char>>) -> Map<i64, Seq<Seq<char>>>
    decreases keys.len(),
{
    if keys.len() == 0 {
        Map::empty()
    } else {
        let before = list_entries(obj, keys.drop_last());
        match (parse_i64(keys.last()), json_array_len(obj, keys.last())) {
            (Some(c), Some(n)) => before.insert(c, array_strings(obj, keys.last(), n as nat)),
            _ => before,
        }
    }
}

/// One list for each of the conversations that the keys name.
pub open spec fn same_for_all(keys: Seq<Seq<char>>, list: Seq<Seq<char>>) -> Map<
    i64,
    Seq<Seq<char>>,
>
    decreases keys.len(),
{
    if keys.len() == 0 {
        Map::empty()
    } else {
        let before = same_for_all(keys.drop_last(), list);
        match parse_i64(keys.last()) {
            Some(c) => before.insert(c, list),
            None => before,
        }
    }
}

/// The keys of the object that `entry` holds under `key`, and the object as
/// text; no keys where it holds no object there.
pub open spec fn member_keys(entry: Seq<char>, key: Seq<char>) -> (Seq<char>, Seq<Seq<char>>) {
    match json_member(entry, key) {
        Some(obj) => match json_keys(obj) {
            Some(k) => (obj, k),
            None => (obj, Seq::empty()),
        },
        None => (Seq::empty(), Seq::empty()),
    }
}

/// The keys that name a conversation for which the object holds a string,
/// in their order.
pub open spec fn session_keys(obj: Seq<char>, keys: Seq<Seq<char>>) -> Seq<Seq<char>> {
    keys.filter(|k: Seq<char>| json_str(obj, k) is Some)
}

/// The tools allowed by conversation, as an entry of the settings file holds
/// them: an object of lists by conversation; or, in files of an older form,
/// one list, which then counts for every conversation that has a last
/// directory, unless it is empty.
pub open spec fn tools_of_entry(entry: Seq<char>) -> Map<i64, Seq<Seq<char>>> {
    match json_array_len(entry, "allowed_tools"@) {
        Some(n) => {
            let list = array_strings(entry, "allowed_tools"@, n as nat);
            if list.len() == 0 {
                Map::empty()
            } else {
                let sessions = member_keys(entry, "last_sessions"@);
                same_for_all(session_keys(sessions.0, sessions.1), list)
            }
        },
        None => {
            let tools = member_keys(entry, "allowed_tools"@);
            list_entries(tools.0, tools.1)
        },
    }
}

fn read_strings(obj: &str, keys: &Vec<String>) -> (m: HashMap<i64, String>)
    ensures
        text_map(m@) == string_entries(obj@, string_views(keys@)),
{
    let ghost k = string_views(keys@);
    let mut m: HashMap<i64, String> = HashMap::new();
    let mut i: usize = 0;
    while i < keys.len()
        invariant
            i <= keys@.len(),
            k == string_views(keys@),
            text_map(m@) == string_entries(obj@, k.take(i as int)),
        decreases keys@.len() - i,
    {
        proof {
            assert(k.take(i + 1).drop_last() =~= k.take(i as int));
        }
        let chat = parse_signed(chars_of(keys[i].as_str()).as_slice());
        let value = str_member(obj, keys[i].as_str());
        match (chat, value) {
            (Some(c), Some(v)) => {
                m.insert(c, v);
            },
            _ => {},
        }
        i += 1;
    }
    proof {
        assert(k.take(keys@.len() as int) =~= k);
    }
    m
}

fn read_bools(obj: &str, keys: &Vec<String>) -> (m: HashMap<i64, bool>)
    ensures
        m@ == bool_entries(obj@, string_views(keys@)),
{
    let ghost k = string_views(keys@);
    let mut m: HashMap<i64, bool> = HashMap::new();
    let mut i: usize = 0;
    while i < keys.len()
        invariant
            i <= keys@.len(),
            k == string_views(keys@),
            m@ == bool_entries(obj@, k.take(i as int)),
        decreases keys@.len() - i,
    {
        proof {
            assert(k.take(i + 1).drop_last() =~= k.take(i as int));
        }
        let chat = parse_signed(chars_of(keys[i].as_str()).as_slice());
        let value = bool_member(obj, keys[i].as_str());
        match (chat, value) {
            (Some(c), Some(v)) => {
                m.insert(c, v);
            },
            _ => {},
        }
        i += 1;
    }
    proof {
        assert(k.take(keys@.len() as int) =~= k);
    }
    m
}

fn read_array(text: &str, key: &str, n: usize) -> (list: Vec<String>)
    ensures
        string_views(list@) == array_strings(text@, key@, n as nat),
{
    let mut list: Vec<String> = Vec::new();
    let mut i: usize = 0;
    while i < n
        invariant
            i <= n,
            string_views(list@) == array_strings(text@, key@, i as nat),
        decreases n - i,
    {
        match array_item_str(text, key, i) {
            Some(s) => {
                list.push(s);
            },
            None => {},
        }
        i += 1;
    }
    list
}

fn read_lists(obj: &str, keys: &Vec<String>) -> (m: HashMap<i64, Vec<String>>)
    ensures
        list_map(m@) == list_entries(obj@, string_views(keys@)),
{
    let ghost k = string_views(keys@);
    let mut m: HashMap<i64, Vec<String>> = HashMap::new();
    let mut i: usize = 0;
    while i < keys.len()
        invariant
            i <= keys@.len(),
            k == string_views(keys@),
            list_map(m@) == list_entries(obj@, k.take(i as int)),
        decreases keys@.len() - i,
    {
        proof {
            assert(k.take(i + 1).drop_last() =~= k.take(i as int));
        }
        let chat = parse_signed(chars_of(keys[i].as_str()).as_slice());
        let len = array_len(obj, keys[i].as_str());
        match (chat, len) {
            (Some(c), Some(n)) => {
                let list = read_array(obj, keys[i].as_str(), n);
                m.insert(c, list);
            },
            _ => {},
        }
        i += 1;
    }
    proof {
        assert(k.take(keys@.len() as int) =~= k);
    }
    m
}

fn give_all(keys: &Vec<String>, list: &Vec<String>) -> (m: HashMap<i64, Vec<String>>)
    ensures
        list_map(m@) == same_for_all(string_views(keys@), string_views(list@)),
{
    let ghost k = string_views(keys@);
    let mut m: HashMap<i64, Vec<String>> = HashMap::new();
    let mut i: usize = 0;
    while i < keys.len()
        invariant
            i <= keys@.len(),
            k == string_views(keys@),
            list_map(m@) == same_for_all(k.take(i as int), string_views(list@)),
        decreases keys@.len() - i,
    {
        proof {
            assert(k.take(i + 1).drop_last() =~= k.take(i as int));
        }
        match parse_signed(chars_of(keys[i].as_str()).as_slice()) {
            Some(c) => {
                let copy = clone_texts(list);
                m.insert(c, copy);
            },
            None => {},
        }
        i += 1;
    }
    proof {
        assert(k.take(keys@.len() as int) =~= k);
    }
    m
}

fn keys_under(entry: &str, key: &str) -> (r: (String, Vec<String>))
    ensures
        (r.0@, string_views(r.1@)) == member_keys(entry@, key@),
{
    match member_json(entry, key) {
        Some(obj) => {
            let keys = match object_keys(obj.as_str()) {
                Some(k) => k,
                None => Vec::new(),
            };
            (obj, keys)
        },
        None => {
            let keys: Vec<String> = Vec::new();
            (String::new(), keys)
        },
    }
}

fn keys_with_strings(obj: &str, keys: &Vec<String>) -> (r: Vec<String>)
    ensures
        string_views(r@) == session_keys(obj@, string_views(keys@)),
{
    let ghost k = string_views(keys@);
    let ghost pred = |x: Seq<char>| json_str(obj@, x) is Some;
    let mut r: Vec<String> = Vec::new();
    let mut i: usize = 0;
    while i < keys.len()
        invariant
            i <= keys@.len(),
            k == string_views(keys@),
            pred == (|x: Seq<char>| json_str(obj@, x) is Some),
            string_views(r@) == k.take(i as int).filter(pred),
        decreases keys@.len() - i,
    {
        proof {
            assert(k.take(i + 1).drop_last() =~= k.take(i as int));
            reveal(Seq::filter);
        }
        if str_member(obj, keys[i].as_str()).is_some() {
            r.push(keys[i].clone());
        }
        i += 1;
    }
    proof {
        assert(k.take(keys@.len() as int) =~= k);
    }
    r
}

/// Reads the settings of one bot from its entry of the settings file. What
/// the entry lacks, or holds in another type, is left at its default.
pub fn settings_of_entry(entry: &str) -> (s: BotSettings)
    ensures
        s.owner_user_id == json_uint(entry@, "owner_user_id"@),
        s.debug == (json_bool(entry@, "debug"@) == Some(true)),
        text_map(s.last_sessions@) == string_entries(
            member_keys(entry@, "last_sessions"@).0,
            member_keys(entry@, "last_sessions"@).1,
        ),
        text_map(s.models@) == string_entries(
            member_keys(entry@, "models"@).0,
            member_keys(entry@, "models"@).1,
        ),
        s.as_public_for_group_chat@ == bool_entries(
            member_keys(entry@, "as_public_for_group_chat"@).0,
            member_keys(entry@, "as_public_for_group_chat"@).1,
        ),
        list_map(s.allowed_tools@) == tools_of_entry(entry@),
{
    let owner_user_id = uint_member(entry, "owner_user_id");
    let (sessions_obj, sessions_keys) = keys_under(entry, "last_sessions");
    let last_sessions = read_strings(sessions_obj.as_str(), &sessions_keys);
    let allowed_tools = match array_len(entry, "allowed_tools") {
        Some(n) => {
            let list = read_array(entry, "allowed_tools", n);
            if list.len() == 0 {
                let m: HashMap<i64, Vec<String>> = HashMap::new();
                m
            } else {
                let with_path = keys_with_strings(sessions_obj.as_str(), &sessions_keys);
                give_all(&with_path, &list)
            }
        },
        None => {
            let (tools_obj, tools_keys) = keys_under(entry, "allowed_tools");
            read_lists(tools_obj.as_str(), &tools_keys)
        },
    };
    let (public_obj, public_keys) = keys_under(entry, "as_public_for_group_chat");
    let as_public_for_group_chat = read_bools(public_obj.as_str(), &public_keys);
    let (models_obj, models_keys) = keys_under(entry, "models");
    let models = read_strings(models_obj.as_str(), &models_keys);
    let debug = match bool_member(entry, "debug") {
        Some(b) => b,
        None => false,
    };
    BotSettings {
        allowed_tools,
        last_sessions,
        owner_user_id,
        as_public_for_group_chat,
        models,
        debug,
    }
}

/// Reads the settings of the bot with the key `bot_key` from the text of
/// the settings file: the defaults where the file holds no entry for the
/// bot.
pub fn load_bot_settings(content: &str, bot_key: &str) -> (s: BotSettings)
    ensures
        json_member(content@, bot_key@).is_none() ==> {
            &&& s.owner_user_id.is_none()
            &&& !s.debug
            &&& s.last_sessions@ == Map::<i64, String>::empty()
            &&& s.models@ == Map::<i64, String>::empty()
            &&& s.as_public_for_group_chat@ == Map::<i64, bool>::empty()
            &&& s.allowed_tools@ == Map::<i64, Vec<String>>::empty()
        },
        json_member(content@, bot_key@) matches Some(entry) ==> {
            &&& s.owner_user_id == json_uint(entry, "owner_user_id"@)
            &&& s.debug == (json_bool(entry, "debug"@) == Some(true))
            &&& text_map(s.last_sessions@) == string_entries(
                member_keys(entry, "last_sessions"@).0,
                member_keys(entry, "last_sessions"@).1,
            )
            &&& text_map(s.models@) == string_entries(
                member_keys(entry, "models"@).0,
                member_keys(entry, "models"@).1,
            )
            &&& s.as_public_for_group_chat@ == bool_entries(
                member_keys(entry, "as_public_for_group_chat"@).0,
                member_keys(entry, "as_public_for_group_chat"@).1,
            )
            &&& list_map(s.allowed_tools@) == tools_of_entry(entry)
        },
{
    match member_json(content, bot_key) {
        Some(entry) => settings_of_entry(entry.as_str()),
        None => BotSettings::default(),
    }
}

/// The token of the bot with the given key, as the settings file holds it.
pub open spec fn token_in(content: Seq<char>, hash: Seq<char>) -> Option<Seq<char>> {
    match json_member(content, hash) {
        Some(entry) => json_str(entry, "token"@),
        None => None,
    }
}

/// Finds the token of a bot by its key in the text of the settings file.
pub fn resolve_token_by_hash(content: &str, hash: &str) -> (r: Option<String>)
    ensures
        opt_view(r) == token_in(content@, hash@),
{
    let entry = member_json(content, hash)?;
    str_member(entry.as_str(), "token")
}

/// The last directory of a conversation of the bot with the given key, as
/// the settings file holds it.
pub open spec fn path_in(content: Seq<char>, chat_id: i64, hash_key: Seq<char>) -> Option<
    Seq<char>,
> {
    match json_member(content, hash_key) {
        Some(entry) => match json_member(entry, "last_sessions"@) {
            Some(sessions) => json_str(sessions, signed_decimal(chat_id as int)),
            None => None,
        },
        None => None,
    }
}

/// Finds the last directory of a conversation in the text of the settings
/// file.
pub fn resolve_current_path_for_chat(content: &str, chat_id: i64, hash_key: &str) -> (r: Option<
    String,
>)
    ensures
        opt_view(r) == path_in(content@, chat_id, hash_key@),
{
    let entry = member_json(content, hash_key)?;
    let sessions = member_json(entry.as_str(), "last_sessions")?;
    let key = string_of(signed_decimal_of(chat_id).as_slice());
    str_member(sessions.as_str(), key.as_str())
}

} // verus!
