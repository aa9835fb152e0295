use vstd::prelude::*;
use crate::network::text::{
    words, split_words, word_is, starts_with, chars_of, string_from_chars, parse_i32, parse_u32,
    parse_uuid, spec_parse_i32, spec_parse_u32, uuid_parse,
};

verus! {

/// A request from a network client. Player identifiers are the 128-bit values
/// of their UUIDs.
#[derive(Debug, Clone)]
pub enum Message {
    Register(String),
    Registered(u128, String),
    Play(u128),
    Positions(u128),
    UP(u128),
    DOWN(u128),
    RIGHT(u128),
    LEFT(u128),
    Exit(u128),
    MapRequest(u128),
    PickUp(u128),
    /// x, y, name, entity index, entity generation
    Interact(u128, i32, i32, String, u32, i32),
    /// entity index, entity generation
    Consume(u128, u32, i32),
    PlayerInfo(u128),
    Build(u128, i32, i32, String),
    Destroy(u128),
}

/// A message with its texts read as character sequences.
pub ghost enum MessageView {
    Register(Seq<char>),
    Registered(u128, Seq<char>),
    Play(u128),
    Positions(u128),
    UP(u128),
    DOWN(u128),
    RIGHT(u128),
    LEFT(u128),
    Exit(u128),
    MapRequest(u128),
    PickUp(u128),
    Interact(u128, i32, i32, Seq<char>, u32, i32),
    Consume(u128, u32, i32),
    PlayerInfo(u128),
    Build(u128, i32, i32, Seq<char>),
    Destroy(u128),
}

impl View for Message {
    type V = MessageView;

    open spec fn view(&self) -> MessageView {
        match self {
            Message::Register(s) => MessageView::Register(s@),
            Message::Registered(u, s) => MessageView::Registered(*u, s@),
            Message::Play(u) => MessageView::Play(*u),
            Message::Positions(u) => MessageView::Positions(*u),
            Message::UP(u) => MessageView::UP(*u),
            Message::DOWN(u) => MessageView::DOWN(*u),
            Message::RIGHT(u) => MessageView::RIGHT(*u),
            Message::LEFT(u) => MessageView::LEFT(*u),
            Message::Exit(u) => MessageView::Exit(*u),
            Message::MapRequest(u) => MessageView::MapRequest(*u),
            Message::PickUp(u) => MessageView::PickUp(*u),
            Message::Interact(u, x, y, s, i, g) => MessageView::Interact(*u, *x, *y, s@, *i, *g),
            Message::Consume(u, i, g) => MessageView::Consume(*u, *i, *g),
            Message::PlayerInfo(u) => MessageView::PlayerInfo(*u),
            Message::Build(u, x, y, s) => MessageView::Build(*u, *x, *y, s@),
            Message::Destroy(u) => MessageView::Destroy(*u),
        }
    }
}

pub open spec fn kw_register() -> Seq<char> { seq!['r', 'e', 'g', 'i', 's', 't', 'e', 'r'] }
pub open spec fn kw_play() -> Seq<char> { seq!['p', 'l', 'a', 'y'] }
pub open spec fn kw_positions() -> Seq<char> { seq!['p', 'o', 's', 'i', 't', 'i', 'o', 'n', 's'] }
pub open spec fn kw_map() -> Seq<char> { seq!['m', 'a', 'p'] }
pub open spec fn kw_up() -> Seq<char> { seq!['u', 'p'] }
pub open spec fn kw_down() -> Seq<char> { seq!['d', 'o', 'w', 'n'] }
pub open spec fn kw_right() -> Seq<char> { seq!['r', 'i', 'g', 'h', 't'] }
pub open spec fn kw_left() -> Seq<char> { seq!['l', 'e', 'f', 't'] }
pub open spec fn kw_player_info() -> Seq<char> { seq!['p', 'l', 'a', 'y', 'e', 'r', '_', 'i', 'n', 'f', 'o'] }
pub open spec fn kw_exit() -> Seq<char> { seq!['e', 'x', 'i', 't'] }
pub open spec fn kw_pickup() -> Seq<char> { seq!['p', 'i', 'c', 'k', 'u', 'p'] }
pub open spec fn kw_destroy() -> Seq<char> { seq!['d', 'e', 's', 't', 'r', 'o', 'y'] }
pub open spec fn kw_build() -> Seq<char> { seq!['b', 'u', 'i', 'l', 'd'] }
pub open spec fn kw_interact() -> Seq<char> { seq!['i', 'n', 't', 'e', 'r', 'a', 'c', 't'] }
pub open spec fn kw_consume() -> Seq<char> { seq!['c', 'o', 'n', 's', 'u', 'm', 'e'] }

/// The message a command word names, for the player `id`, with the words that
/// follow it as arguments.
pub open spec fn command_message(id: u128, c: Seq<char>, args: Seq<Seq<char>>) -> Option<MessageView> {
    if c == kw_play() {
        Some(MessageView::Play(id))
    } else if c == kw_positions() {
        Some(MessageView::Positions(id))
    } else if c == kw_map() {
        Some(MessageView::MapRequest(id))
    } else if c == kw_up() {
        Some(MessageView::UP(id))
    } else if c == kw_down() {
        Some(MessageView::DOWN(id))
    } else if c == kw_right() {
        Some(MessageView::RIGHT(id))
    } else if c == kw_left() {
        Some(MessageView::LEFT(id))
    } else if c == kw_player_info() {
        Some(MessageView::PlayerInfo(id))
    } else if c == kw_exit() {
        Some(MessageView::Exit(id))
    } else if c == kw_pickup() {
        Some(MessageView::PickUp(id))
    } else if c == kw_destroy() {
        Some(MessageView::Destroy(id))
    } else if c == kw_build() {
        Some(MessageView::Build(id, spec_parse_i32(args[0])->0, spec_parse_i32(args[1])->0, args[2]))
    } else if c == kw_interact() {
        Some(MessageView::Interact(
            id,
            spec_parse_i32(args[0])->0,
            spec_parse_i32(args[1])->0,
            args[2],
            spec_parse_u32(args[3])->0,
            spec_parse_i32(args[4])->0,
        ))
    } else if c == kw_consume() {
        Some(MessageView::Consume(id, spec_parse_u32(args[0])->0, spec_parse_i32(args[1])->0))
    } else {
        None
    }
}

/// The arguments a command needs are there and readable.
pub open spec fn command_ok(c: Seq<char>, args: Seq<Seq<char>>) -> bool {
    &&& c == kw_build() ==> args.len() >= 3 && spec_parse_i32(args[0]) is Some && spec_parse_i32(args[1]) is Some
    &&& c == kw_interact() ==> args.len() >= 5 && spec_parse_i32(args[0]) is Some && spec_parse_i32(args[1]) is Some
        && spec_parse_u32(args[3]) is Some && spec_parse_i32(args[4]) is Some
    &&& c == kw_consume() ==> args.len() >= 2 && spec_parse_u32(args[0]) is Some && spec_parse_i32(args[1]) is Some
}

pub open spec fn register_prefix(s: Seq<char>) -> bool {
    kw_register().len() <= s.len() && s.take(kw_register().len() as int) == kw_register()
}

/// The texts `Message::from` reads without failing: a text that does not start
/// with `register`, whose first word is a UUID and whose second word is
/// `build`, `interact` or `consume`, carries the arguments that command needs.
pub open spec fn message_parses(s: Seq<char>) -> bool {
    let w = words(s);
    !register_prefix(s) && w.len() >= 2 && uuid_parse(w[0]) is Some ==> command_ok(w[1], w.skip(2))
}

/// What a client's text means, with the command word. A text starting with
/// `register` registers the name given by its second word. Any other text is a
/// player's UUID, then a command word, then the command's arguments; texts
/// without a valid UUID or a known command mean nothing.
pub open spec fn spec_message_from(s: Seq<char>) -> Option<(MessageView, Seq<char>)> {
    let w = words(s);
    if register_prefix(s) {
        if w.len() >= 2 {
            Some((MessageView::Register(w[1]), kw_register()))
        } else {
            None
        }
    } else if w.len() == 0 {
        None
    } else {
        match uuid_parse(w[0]) {
            None => None,
            Some(id) => if w.len() < 2 {
                None
            } else {
                match command_message(id, w[1], w.skip(2)) {
                    Some(m) => Some((m, w[1])),
                    None => None,
                }
            },
        }
    }
}

/// Each command word names its own message, for the player who sent it: the
/// movement words move the player in the direction they name, and a word that
/// names no command gives nothing.
pub proof fn lemma_command_words(id: u128, args: Seq<Seq<char>>, c: Seq<char>)
    ensures
        command_message(id, seq!['u', 'p'], args) == Some(MessageView::UP(id)),
        command_message(id, seq!['d', 'o', 'w', 'n'], args) == Some(MessageView::DOWN(id)),
        command_message(id, seq!['l', 'e', 'f', 't'], args) == Some(MessageView::LEFT(id)),
        command_message(id, seq!['r', 'i', 'g', 'h', 't'], args) == Some(MessageView::RIGHT(id)),
        command_message(id, seq!['p', 'l', 'a', 'y'], args) == Some(MessageView::Play(id)),
        command_message(id, seq!['p', 'o', 's', 'i', 't', 'i', 'o', 'n', 's'], args) == Some(MessageView::Positions(id)),
        command_message(id, seq!['m', 'a', 'p'], args) == Some(MessageView::MapRequest(id)),
        command_message(id, seq!['p', 'l', 'a', 'y', 'e', 'r', '_', 'i', 'n', 'f', 'o'], args) == Some(MessageView::PlayerInfo(id)),
        command_message(id, seq!['e', 'x', 'i', 't'], args) == Some(MessageView::Exit(id)),
        command_message(id, seq!['p', 'i', 'c', 'k', 'u', 'p'], args) == Some(MessageView::PickUp(id)),
        command_message(id, seq!['d', 'e', 's', 't', 'r', 'o', 'y'], args) == Some(MessageView::Destroy(id)),
        command_message(id, seq!['b', 'u', 'i', 'l', 'd'], args) == Some(MessageView::Build(
            id,
            spec_parse_i32(args[0])->0,
            spec_parse_i32(args[1])->0,
            args[2],
        )),
        command_message(id, seq!['i', 'n', 't', 'e', 'r', 'a', 'c', 't'], args) == Some(MessageView::Interact(
            id,
            spec_parse_i32(args[0])->0,
            spec_parse_i32(args[1])->0,
            args[2],
            spec_parse_u32(args[3])->0,
            spec_parse_i32(args[4])->0,
        )),
        command_message(id, seq!['c', 'o', 'n', 's', 'u', 'm', 'e'], args) == Some(MessageView::Consume(
            id,
            spec_parse_u32(args[0])->0,
            spec_parse_i32(args[1])->0,
        )),
        c != seq!['u', 'p'] && c != seq!['d', 'o', 'w', 'n'] && c != seq!['l', 'e', 'f', 't']
            && c != seq!['r', 'i', 'g', 'h', 't'] && c != seq!['p', 'l', 'a', 'y']
            && c != seq!['p', 'o', 's', 'i', 't', 'i', 'o', 'n', 's'] && c != seq!['m', 'a', 'p']
            && c != seq!['p', 'l', 'a', 'y', 'e', 'r', '_', 'i', 'n', 'f', 'o'] && c != seq!['e', 'x', 'i', 't']
            && c != seq!['p', 'i', 'c', 'k', 'u', 'p'] && c != seq!['d', 'e', 's', 't', 'r', 'o', 'y']
            && c != seq!['b', 'u', 'i', 'l', 'd'] && c != seq!['i', 'n', 't', 'e', 'r', 'a', 'c', 't']
            && c != seq!['c', 'o', 'n', 's', 'u', 'm', 'e'] ==> command_message(id, c, args) is None,
{
    assert(kw_play()[1] != kw_positions()[1]);
    assert(kw_play()[0] != kw_map()[0]);
    assert(kw_play()[3] != kw_player_info()[3] || kw_play().len() != kw_player_info().len());
    assert(kw_down()[0] != kw_left()[0]);
    assert(kw_down()[0] != kw_exit()[0]);
    assert(kw_down()[0] != kw_play()[0]);
    assert(kw_left()[0] != kw_play()[0]);
    assert(kw_left()[0] != kw_exit()[0]);
    assert(kw_exit()[0] != kw_play()[0]);
    assert(kw_right()[0] != kw_build()[0]);
    assert(kw_pickup()[1] != kw_player_info()[1]);
    assert(kw_destroy()[0] != kw_consume()[0]);
    assert(kw_destroy()[0] != kw_pickup()[0]);
    assert(kw_destroy()[1] != kw_interact()[1]);
    assert(kw_consume()[0] != kw_pickup()[0]);
    assert(kw_consume()[0] != kw_destroy()[0]);
    assert(kw_interact()[0] != kw_consume()[0]);
    assert(kw_interact()[0] != kw_positions()[0]);
    assert(kw_positions()[0] != kw_register()[0]);
}

/// A player's text whose second word is a movement word is the move of that
/// direction for the player its first word names, with that word as command.
pub proof fn lemma_movement_texts(s: Seq<char>, id: u128)
    requires
        !register_prefix(s),
        words(s).len() >= 2,
        uuid_parse(words(s)[0]) == Some(id),
    ensures
        words(s)[1] == seq!['u', 'p'] ==> spec_message_from(s) == Some((MessageView::UP(id), seq!['u', 'p'])),
        words(s)[1] == seq!['d', 'o', 'w', 'n'] ==> spec_message_from(s) == Some((MessageView::DOWN(id), seq!['d', 'o', 'w', 'n'])),
        words(s)[1] == seq!['l', 'e', 'f', 't'] ==> spec_message_from(s) == Some((MessageView::LEFT(id), seq!['l', 'e', 'f', 't'])),
        words(s)[1] == seq!['r', 'i', 'g', 'h', 't'] ==> spec_message_from(s) == Some((MessageView::RIGHT(id), seq!['r', 'i', 'g', 'h', 't'])),
{
    lemma_command_words(id, words(s).skip(2), words(s)[1]);
}

pub open spec fn result_view(r: Option<(Message, String)>) -> Option<(MessageView, Seq<char>)> {
    match r {
        Some((m, c)) => Some((m@, c@)),
        None => None,
    }
}

fn word_string(w: &Vec<char>) -> (r: String)
    ensures
        r@ == w@,
{
    string_from_chars(w)
}

fn word_i32(w: &Vec<char>) -> (r: Option<i32>)
    ensures
        r == spec_parse_i32(w@),
{
    let s = string_from_chars(w);
    parse_i32(s.as_str())
}

fn word_u32(w: &Vec<char>) -> (r: Option<u32>)
    ensures
        r == spec_parse_u32(w@),
{
    let s = string_from_chars(w);
    parse_u32(s.as_str())
}

fn word_uuid(w: &Vec<char>) -> (r: Option<u128>)
    ensures
        r == uuid_parse(w@),
{
    let s = string_from_chars(w);
    parse_uuid(s.as_str())
}

pub open spec fn deep(ws: Seq<Vec<char>>) -> Seq<Seq<char>> {
    ws.map_values(|v: Vec<char>| v@)
}

/// Whether the arguments a command needs are there and readable.
fn command_args_ok(c: &Vec<char>, parts: &Vec<Vec<char>>) -> (r: bool)
    requires
        parts@.len() >= 2,
        c@ == deep(parts@)[1],
    ensures
        r == command_ok(c@, deep(parts@).skip(2)),
{
    let ghost args = deep(parts@).skip(2);
    assert forall|k: int| 0 <= k < args.len() implies #[trigger] args[k] == parts@[k + 2]@ by {}
    if word_is(c, &vec!['b', 'u', 'i', 'l', 'd']) {
        parts.len() >= 5 && word_i32(&parts[2]).is_some() && word_i32(&parts[3]).is_some()
    } else if word_is(c, &vec!['i', 'n', 't', 'e', 'r', 'a', 'c', 't']) {
        parts.len() >= 7 && word_i32(&parts[2]).is_some() && word_i32(&parts[3]).is_some()
            && word_u32(&parts[5]).is_some() && word_i32(&parts[6]).is_some()
    } else if word_is(c, &vec!['c', 'o', 'n', 's', 'u', 'm', 'e']) {
        parts.len() >= 4 && word_u32(&parts[2]).is_some() && word_i32(&parts[3]).is_some()
    } else {
        true
    }
}

/// Whether `Message::from` can read the text (see `message_parses`).
pub fn message_parses_exec(msg: &str) -> (r: bool)
    ensures
        r == message_parses(msg@),
{
    let chars = chars_of(msg);
    let parts = split_words(&chars);
    if starts_with(&chars, &vec!['r', 'e', 'g', 'i', 's', 't', 'e', 'r']) {
        return true;
    }
    if parts.len() < 2 {
        return true;
    }
    assert(deep(parts@)[0] == parts@[0]@);
    if word_uuid(&parts[0]).is_none() {
        return true;
    }
    assert(deep(parts@)[1] == parts@[1]@);
    command_args_ok(&parts[1], &parts)
}

/// The message the command word `parts[1]` names for the player `id`, with the
/// words after it as arguments, together with the command word.
pub fn message_of_command(id: u128, parts: &Vec<Vec<char>>) -> (r: Option<(Message, String)>)
    requires
        parts@.len() >= 2,
        command_ok(parts@[1]@, deep(parts@).skip(2)),
    ensures
        result_view(r) == match command_message(id, parts@[1]@, deep(parts@).skip(2)) {
            Some(m) => Some((m, parts@[1]@)),
            None => None,
        },
{
    let command = &parts[1];
    let ghost args = deep(parts@).skip(2);
    assert forall|k: int| 0 <= k < args.len() implies #[trigger] args[k] == parts@[k + 2]@ by {}
    assert(deep(parts@)[1] == parts@[1]@);
    let msg = if word_is(command, &vec!['p', 'l', 'a', 'y']) {
        Some(Message::Play(id))
    } else if word_is(command, &vec!['p', 'o', 's', 'i', 't', 'i', 'o', 'n', 's']) {
        Some(Message::Positions(id))
    } else if word_is(command, &vec!['m', 'a', 'p']) {
        Some(Message::MapRequest(id))
    } else if word_is(command, &vec!['u', 'p']) {
        Some(Message::UP(id))
    } else if word_is(command, &vec!['d', 'o', 'w', 'n']) {
        Some(Message::DOWN(id))
    } else if word_is(command, &vec!['r', 'i', 'g', 'h', 't']) {
        Some(Message::RIGHT(id))
    } else if word_is(command, &vec!['l', 'e', 'f', 't']) {
        Some(Message::LEFT(id))
    } else if word_is(command, &vec!['p', 'l', 'a', 'y', 'e', 'r', '_', 'i', 'n', 'f', 'o']) {
        Some(Message::PlayerInfo(id))
    } else if word_is(command, &vec!['e', 'x', 'i', 't']) {
        Some(Message::Exit(id))
    } else if word_is(command, &vec!['p', 'i', 'c', 'k', 'u', 'p']) {
        Some(Message::PickUp(id))
    } else if word_is(command, &vec!['d', 'e', 's', 't', 'r', 'o', 'y']) {
        Some(Message::Destroy(id))
    } else if word_is(command, &vec!['b', 'u', 'i', 'l', 'd']) {
        let x = match word_i32(&parts[2]) {
            Some(v) => v,
            None => return None,
        };
        let y = match word_i32(&parts[3]) {
            Some(v) => v,
            None => return None,
        };
        let name = word_string(&parts[4]);
        Some(Message::Build(id, x, y, name))
    } else if word_is(command, &vec!['i', 'n', 't', 'e', 'r', 'a', 'c', 't']) {
        let x = match word_i32(&parts[2]) {
            Some(v) => v,
            None => return None,
        };
        let y = match word_i32(&parts[3]) {
            Some(v) => v,
            None => return None,
        };
        let name = word_string(&parts[4]);
        let ent_id = match word_u32(&parts[5]) {
            Some(v) => v,
            None => return None,
        };
        let gen = match word_i32(&parts[6]) {
            Some(v) => v,
            None => return None,
        };
        Some(Message::Interact(id, x, y, name, ent_id, gen))
    } else if word_is(command, &vec!['c', 'o', 'n', 's', 'u', 'm', 'e']) {
        let ent_id = match word_u32(&parts[2]) {
            Some(v) => v,
            None => return None,
        };
        let gen = match word_i32(&parts[3]) {
            Some(v) => v,
            None => return None,
        };
        Some(Message::Consume(id, ent_id, gen))
    } else {
        None
    };
    match msg {
        Some(msg) => Some((msg, word_string(command))),
        None => None,
    }
}

impl Message {
    /// Reads a client's text: the message it carries and its command word (see
    /// `spec_message_from`).
    pub fn from(msg: &str) -> (r: Option<(Message, String)>)
        requires
            message_parses(msg@),
        ensures
            result_view(r) == spec_message_from(msg@),
    {
        let chars = chars_of(msg);
        let parts = split_words(&chars);
        let ghost w = deep(parts@);
        assert(w == words(msg@));
        assert forall|k: int| 0 <= k < parts@.len() implies #[trigger] w[k] == parts@[k]@ by {}
        if starts_with(&chars, &vec!['r', 'e', 'g', 'i', 's', 't', 'e', 'r']) {
            if parts.len() < 2 {
                return None;
            }
            let name = word_string(&parts[1]);
            let register = word_string(&vec!['r', 'e', 'g', 'i', 's', 't', 'e', 'r']);
            Some((Message::Register(name), register))
        } else {
            if parts.len() == 0 {
                return None;
            }
            let id = match word_uuid(&parts[0]) {
                Some(id) => id,
                None => return None,
            };
            if parts.len() < 2 {
                return None;
            }
            message_of_command(id, &parts)
        }
    }

    /// Reads a client's text like `from`, on every text: `None` for a text
    /// `from` cannot read (a command without the arguments it needs), and
    /// otherwise `Some` of what `from` gives.
    pub fn from_checked(msg: &str) -> (r: Option<Option<(Message, String)>>)
        ensures
            r is None <==> !message_parses(msg@),
            r matches Some(x) ==> result_view(x) == spec_message_from(msg@),
    {
        if message_parses_exec(msg) {
            Some(Message::from(msg))
        } else {
            None
        }
    }
}

} // verus!
