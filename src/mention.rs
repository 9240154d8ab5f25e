use vstd::prelude::*;
use vstd::string::StrSliceExecFns;

verus! {

/// The index of the first space of `s` at or after `from`, or `s.len()`
/// where there is none.
pub open spec fn next_space(s: Seq<char>, from: int) -> int
    decreases s.len() - from,
{
    if from < 0 || from >= s.len() {
        s.len() as int
    } else if s[from] == ' ' {
        from
    } else {
        next_space(s, from + 1)
    }
}

/// The second of the pieces that single spaces cut `s` into, if `s` holds
/// a space at all.
pub open spec fn second_word(s: Seq<char>) -> Option<Seq<char>> {
    let i = next_space(s, 0);
    if i >= s.len() {
        None
    } else {
        Some(s.subrange(i + 1, next_space(s, i + 1)))
    }
}

/// The number that the decimal digits `d` write.
pub open spec fn decimal_value(d: Seq<char>) -> int
    decreases d.len(),
{
    if d.len() == 0 {
        0
    } else {
        decimal_value(d.drop_last()) * 10 + (d.last() as int - '0' as int)
    }
}

pub open spec fn all_digits(d: Seq<char>) -> bool {
    forall|i: int| 0 <= i < d.len() ==> '0' <= #[trigger] d[i] <= '9'
}

/// What `u64`'s `from_str` reads from `d`: an optional `+`, then one or more
/// decimal digits whose value fits.
pub open spec fn parse_u64(d: Seq<char>) -> Option<u64> {
    let digits = if d.len() > 0 && d[0] == '+' {
        d.drop_first()
    } else {
        d
    };
    if digits.len() > 0 && all_digits(digits) && decimal_value(digits) <= u64::MAX {
        Some(decimal_value(digits) as u64)
    } else {
        None
    }
}

/// The user id in a mention `<@id>` or `<@!id>`. The closing character is
/// dropped unread.
pub open spec fn mention_id(s: Seq<char>) -> Option<u64> {
    if s.len() >= 4 && s[0] == '<' && s[1] == '@' && s[2] == '!' {
        parse_u64(s.subrange(3, s.len() - 1))
    } else if s.len() >= 4 && s[0] == '<' && s[1] == '@' {
        parse_u64(s.subrange(2, s.len() - 1))
    } else {
        None
    }
}

/// Whether `s` ends in a character of one byte, which a mention does.
pub open spec fn ends_in_ascii(s: Seq<char>) -> bool {
    s.len() == 0 || (s.last() as u32) < 128
}

/// Relies on serenity::utils::parse_username, which cuts the text between
/// `<@` or `<@!` and the last byte and parses it as a `u64`. Cutting before
/// the last byte panics where the last character is wider than one byte.
#[verifier::external_body]
fn parse_username(token: &str) -> (r: Option<u64>)
    requires
        ends_in_ascii(token@),
    ensures
        r == mention_id(token@),
{
    serenity::utils::parse_username(token)
}

/// Why a command that names a member could not tell which.
#[derive(Debug, Clone, Copy, PartialEq, Eq, Structural)]
pub enum MentionError {
    /// The command holds no second word.
    Missing,
    /// The second word is not a user mention.
    Unparseable,
}

/// The commands that name a member.
#[derive(Debug, Clone, Copy, PartialEq, Eq, Structural)]
pub enum TargetCommand {
    Kill,
    Revive,
}

/// The reply to a `kill` that names nobody.
pub const KILL_MISSING: &'static str = "No Player to Kill. Mention the Player with '!kill @Player'.";

/// The reply to a `kill` whose second word is no mention.
pub const KILL_UNPARSEABLE: &'static str =
    "Could not parse User ID. Is it valid? Mention the Player with '!kill @Player'.";

/// The reply to a `revive` that names nobody.
pub const REVIVE_MISSING: &'static str =
    "No Player to Revive. Mention the Player with '!revive @Player'.";

/// The reply to a `revive` whose second word is no mention.
pub const REVIVE_UNPARSEABLE: &'static str =
    "Could not parse User ID. Is it valid? Mention the Player with '!revive @Player'.";

impl MentionError {
    /// The reply posted to the caller of `command`.
    pub fn message(&self, command: TargetCommand) -> (r: &'static str)
        ensures
            r == match (*self, command) {
                (MentionError::Missing, TargetCommand::Kill) => KILL_MISSING,
                (MentionError::Unparseable, TargetCommand::Kill) => KILL_UNPARSEABLE,
                (MentionError::Missing, TargetCommand::Revive) => REVIVE_MISSING,
                (MentionError::Unparseable, TargetCommand::Revive) => REVIVE_UNPARSEABLE,
            },
    {
        match (self, command) {
            (MentionError::Missing, TargetCommand::Kill) => KILL_MISSING,
            (MentionError::Unparseable, TargetCommand::Kill) => KILL_UNPARSEABLE,
            (MentionError::Missing, TargetCommand::Revive) => REVIVE_MISSING,
            (MentionError::Unparseable, TargetCommand::Revive) => REVIVE_UNPARSEABLE,
        }
    }
}

/// The member that the command text `content` names by its second word.
pub open spec fn target_of(content: Seq<char>) -> Result<u64, MentionError> {
    match second_word(content) {
        None => Err(MentionError::Missing),
        Some(word) => if !ends_in_ascii(word) {
            Err(MentionError::Unparseable)
        } else {
            match mention_id(word) {
                Some(id) => Ok(id),
                None => Err(MentionError::Unparseable),
            }
        },
    }
}

/// The index of the first space of `s` at or after `from`.
fn find_space(s: &str, n: usize, from: usize) -> (r: usize)
    requires
        n == s@.len(),
        from <= n,
    ensures
        r == next_space(s@, from as int),
        from <= r <= n,
{
    let mut k = from;
    while k < n && s.get_char(k) != ' '
        invariant
            n == s@.len(),
            from <= k <= n,
            next_space(s@, k as int) == next_space(s@, from as int),
        decreases n - k,
    {
        k = k + 1;
    }
    k
}

/// Reads the member that a command such as `!kill <@id>` names.
pub fn mention_target(content: &str) -> (r: Result<u64, MentionError>)
    ensures
        r == target_of(content@),
{
    let n = content.unicode_len();
    let i = find_space(content, n, 0);
    if i >= n {
        return Err(MentionError::Missing);
    }
    let j = find_space(content, n, i + 1);
    let word = content.substring_char(i + 1, j);
    let len = word.unicode_len();
    if len > 0 && (word.get_char(len - 1) as u32) >= 128 {
        return Err(MentionError::Unparseable);
    }
    match parse_username(word) {
        Some(id) => Ok(id),
        None => Err(MentionError::Unparseable),
    }
}

} // verus!
