//! A political party of a guild, and the resolution of its references.
//!
//! A party holds the identifiers of its guild and role as text, the way they
//! are stored; they are parsed to integers where they are used. The live guild,
//! role and member list belong to the platform and are looked up per request.
use vstd::prelude::*;

verus! {

/// `c` is an ASCII decimal digit.
pub open spec fn is_digit(c: char) -> bool {
    '0' <= c && c <= '9'
}

/// The value of the decimal digit `c`.
pub open spec fn digit_value(c: char) -> nat {
    if is_digit(c) {
        ((c as u32) - ('0' as u32)) as nat
    } else {
        0
    }
}

/// The value of the decimal numeral `s`.
pub open spec fn digits_value(s: Seq<char>) -> nat
    decreases s.len(),
{
    if s.len() == 0 {
        0
    } else {
        digits_value(s.drop_last()) * 10 + digit_value(s.last())
    }
}

/// `s` without one leading `+`.
pub open spec fn unsigned_part(s: Seq<char>) -> Seq<char> {
    if s.len() > 0 && s[0] == '+' {
        s.drop_first()
    } else {
        s
    }
}

/// The identifier that the text `s` denotes: a non-empty run of decimal digits,
/// with an optional leading `+`, whose value fits in 64 bits.
pub open spec fn id_value(s: Seq<char>) -> Option<u64> {
    let d = unsigned_part(s);
    if d.len() > 0 && (forall|i: int| 0 <= i < d.len() ==> is_digit(#[trigger] d[i]))
        && digits_value(d) <= u64::MAX {
        Some(digits_value(d) as u64)
    } else {
        None
    }
}

proof fn lemma_prefix_value_le(d: Seq<char>, k: int)
    requires
        0 <= k <= d.len(),
    ensures
        digits_value(d.subrange(0, k)) <= digits_value(d),
    decreases d.len(),
{
    if k < d.len() {
        lemma_prefix_value_le(d.drop_last(), k);
        assert(d.drop_last().subrange(0, k) =~= d.subrange(0, k));
    } else {
        assert(d.subrange(0, k) =~= d);
    }
}

/// Parses a stored identifier.
pub fn parse_id(s: &str) -> (r: Option<u64>)
    ensures
        r == id_value(s@),
{
    let n = s.unicode_len();
    let mut start: usize = 0;
    if n > 0 && s.get_char(0) == '+' {
        start = 1;
    }
    let ghost d = s@.subrange(start as int, n as int);
    assert(d =~= unsigned_part(s@));
    if start == n {
        return None;
    }
    let mut v: u64 = 0;
    let mut i: usize = start;
    while i < n
        invariant
            start <= i <= n,
            n == s@.len(),
            d == s@.subrange(start as int, n as int),
            d == unsigned_part(s@),
            forall|j: int| 0 <= j < i - start ==> is_digit(#[trigger] d[j]),
            v == digits_value(d.subrange(0, i - start)),
        decreases n - i,
    {
        let c = s.get_char(i);
        assert(c == d[i - start]);
        if !('0' <= c && c <= '9') {
            assert(!is_digit(d[i - start]));
            return None;
        }
        let dv = ((c as u32) - ('0' as u32)) as u64;
        assert(d.subrange(0, i + 1 - start).drop_last() =~= d.subrange(0, i - start));
        assert(digits_value(d.subrange(0, i + 1 - start)) == v * 10 + dv);
        let m = v.checked_mul(10);
        if m.is_none() {
            proof {
                lemma_prefix_value_le(d, i + 1 - start);
            }
            return None;
        }
        let w = m.unwrap().checked_add(dv);
        if w.is_none() {
            proof {
                lemma_prefix_value_le(d, i + 1 - start);
            }
            return None;
        }
        v = w.unwrap();
        i = i + 1;
    }
    assert(d.subrange(0, n - start) =~= d);
    Some(v)
}

/// A guild member, as far as the parties need one: the user and the roles the
/// user holds.
#[derive(Debug, Clone, PartialEq, Eq)]
pub struct Member {
    pub user_id: u64,
    pub roles: Vec<u64>,
}

/// `m` holds the role `role`.
pub open spec fn has_role(m: Member, role: u64) -> bool {
    m.roles@.contains(role)
}

/// The members of `ms` that hold the role `role`, in their order.
pub open spec fn members_with_role(ms: Seq<Member>, role: u64) -> Seq<Member> {
    ms.filter(|m: Member| has_role(m, role))
}

impl Member {
    /// Whether this member holds the role `role`.
    pub fn holds(&self, role: u64) -> (r: bool)
        ensures
            r == has_role(*self, role),
    {
        let mut i: usize = 0;
        while i < self.roles.len()
            invariant
                i <= self.roles@.len(),
                forall|j: int| 0 <= j < i ==> self.roles@[j] != role,
            decreases self.roles@.len() - i,
        {
            if self.roles[i] == role {
                return true;
            }
            i = i + 1;
        }
        false
    }
}

/// Represents a political party existing on a guild.
#[derive(Debug, Clone, PartialEq, Eq)]
pub struct Party {
    pub description: String,
    pub guild_id: String,
    pub role_id: String,
    pub emoji_id: String,
}

impl Party {
    /// A party as it is stored: its identifiers as text.
    pub fn new(description: String, guild_id: String, role_id: String, emoji_id: String) -> (r: Party)
        ensures
            r.description == description,
            r.guild_id == guild_id,
            r.role_id == role_id,
            r.emoji_id == emoji_id,
    {
        Party { description, guild_id, role_id, emoji_id }
    }

    /// Both identifiers that the party resolves denote integers.
    pub open spec fn well_formed(&self) -> bool {
        id_value(self.guild_id@) is Some && id_value(self.role_id@) is Some
    }

    /// The guild identifier, as an integer.
    pub open spec fn guild_key(&self) -> u64 {
        id_value(self.guild_id@)->Some_0
    }

    /// The role identifier, as an integer.
    pub open spec fn role_key(&self) -> u64 {
        id_value(self.role_id@)->Some_0
    }

    /// Whether both identifiers that the party resolves parse.
    pub fn has_valid_ids(&self) -> (r: bool)
        ensures
            r == self.well_formed(),
    {
        parse_id(self.guild_id.as_str()).is_some() && parse_id(self.role_id.as_str()).is_some()
    }

    /// The identifier of the guild to look up for this party.
    pub fn guild_id(&self) -> (r: u64)
        requires
            id_value(self.guild_id@) is Some,
        ensures
            r == self.guild_key(),
    {
        parse_id(self.guild_id.as_str()).unwrap()
    }

    /// The identifier of the role to look up for this party.
    pub fn role_id(&self) -> (r: u64)
        requires
            id_value(self.role_id@) is Some,
        ensures
            r == self.role_key(),
    {
        parse_id(self.role_id.as_str()).unwrap()
    }

    /// The party's members, from the member list of its guild: `None` where the
    /// guild could not be found or its member list not fetched.
    pub fn members(&self, guild_members: Option<Vec<Member>>) -> (r: Option<Vec<Member>>)
        requires
            guild_members is Some ==> id_value(self.role_id@) is Some,
        ensures
            match guild_members {
                None => r is None,
                Some(ms) => r is Some && r->Some_0@ == members_with_role(ms@, self.role_key()),
            },
    {
        match guild_members {
            None => None,
            Some(ms) => {
                let role = self.role_id();
                let ghost all = ms@;
                let mut rest = ms;
                let mut data: Vec<Member> = Vec::new();
                let ghost mut i: int = 0;
                while rest.len() > 0
                    invariant
                        0 <= i <= all.len(),
                        rest@ == all.subrange(i, all.len() as int),
                        data@ == members_with_role(all.subrange(0, i), role),
                    decreases rest@.len(),
                {
                    proof {
                        reveal(Seq::filter);
                        assert(all.subrange(0, i + 1).drop_last() =~= all.subrange(0, i));
                    }
                    let m = rest.remove(0);
                    if m.holds(role) {
                        data.push(m);
                    }
                    proof {
                        i = i + 1;
                        assert(rest@ =~= all.subrange(i, all.len() as int));
                    }
                }
                assert(all.subrange(0, i) =~= all);
                Some(data)
            },
        }
    }
}

} // verus!
