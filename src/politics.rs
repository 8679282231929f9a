//! The politics command module: a report of the parties and their sizes.
use vstd::prelude::*;
use crate::orm::StoreFailure;
use crate::party::Member;
use crate::response::{Embed, Field, FieldValue, ResponseData};

verus! {

/// What the live lookups found for one stored party.
pub enum Resolution {
    /// The party's role is not known to the platform.
    RoleMissing,
    /// The party's role, and its members where the member list of its guild
    /// could be fetched.
    Resolved { role_name: String, members: Option<Vec<Member>> },
}

/// The number of members a party is reported with: none where they are unknown.
pub open spec fn member_count(members: Option<Vec<Member>>) -> nat {
    match members {
        Some(ms) => ms@.len(),
        None => 0,
    }
}

/// The report rows, as (role name, member count), of the resolved parties `rs`:
/// one per party whose role was found, in their order.
pub open spec fn rows_of(rs: Seq<Resolution>) -> Seq<(Seq<char>, nat)>
    decreases rs.len(),
{
    if rs.len() == 0 {
        Seq::empty()
    } else {
        let before = rows_of(rs.drop_last());
        match rs.last() {
            Resolution::RoleMissing => before,
            Resolution::Resolved { role_name, members } => before.push(
                (role_name@, member_count(members)),
            ),
        }
    }
}

/// `f` is the inline embed field that shows `row`.
pub open spec fn shows_row(f: Field, row: (Seq<char>, nat)) -> bool {
    &&& f.name@ == row.0
    &&& f.value matches FieldValue::Number(n) && n as nat == row.1
    &&& f.inline
}

/// `fields` show `rows`, one field per row, in their order.
pub open spec fn shows_rows(fields: Seq<Field>, rows: Seq<(Seq<char>, nat)>) -> bool {
    &&& fields.len() == rows.len()
    &&& forall|i: int| 0 <= i < fields.len() ==> shows_row(#[trigger] fields[i], rows[i])
}

/// A party whose role is missing adds no row: leaving it out of the resolved
/// parties leaves the report as it is.
pub proof fn lemma_missing_role_omitted(rs: Seq<Resolution>, i: int)
    requires
        0 <= i < rs.len(),
        rs[i] is RoleMissing,
    ensures
        rows_of(rs.remove(i)) == rows_of(rs),
    decreases rs.len(),
{
    if i == rs.len() - 1 {
        assert(rs.remove(i) =~= rs.drop_last());
    } else {
        lemma_missing_role_omitted(rs.drop_last(), i);
        assert(rs.remove(i).drop_last() =~= rs.drop_last().remove(i));
        assert(rs.remove(i).last() == rs.last());
    }
}

/// The politics command module.
#[derive(Debug, Default, Clone, Copy, PartialEq, Eq)]
pub struct Politics;

impl Politics {
    /// The module.
    pub fn new() -> (r: Politics) {
        Politics
    }

    /// The report rows for the resolved parties `rs`, as embed fields.
    pub fn party_fields(&self, rs: Vec<Resolution>) -> (r: Vec<Field>)
        ensures
            shows_rows(r@, rows_of(rs@)),
    {
        let ghost all = rs@;
        let mut rest = rs;
        let mut fields: Vec<Field> = Vec::new();
        let ghost mut i: int = 0;
        while rest.len() > 0
            invariant
                0 <= i <= all.len(),
                rest@ == all.subrange(i, all.len() as int),
                shows_rows(fields@, rows_of(all.subrange(0, i))),
            decreases rest@.len(),
        {
            assert(all.subrange(0, i + 1).drop_last() =~= all.subrange(0, i));
            let r = rest.remove(0);
            match r {
                Resolution::RoleMissing => {},
                Resolution::Resolved { role_name, members } => {
                    let count: usize = match &members {
                        Some(ms) => ms.len(),
                        None => 0,
                    };
                    fields.push(
                        Field { name: role_name, value: FieldValue::Number(count as u64), inline: true },
                    );
                },
            }
            proof {
                i = i + 1;
                assert(rest@ =~= all.subrange(i, all.len() as int));
            }
        }
        assert(all.subrange(0, i) =~= all);
        fields
    }

    /// The parties report: one inline field per party whose role was found,
    /// named after the role and valued with its member count. A failure to load
    /// the parties fails the report.
    pub fn parties(&self, loaded: Result<Vec<Resolution>, StoreFailure>) -> (r: Result<
        ResponseData,
        StoreFailure,
    >)
        ensures
            match loaded {
                Err(e) => r == Err::<ResponseData, StoreFailure>(e),
                Ok(rs) => r is Ok && {
                    let e = r->Ok_0.embed;
                    &&& e.title is None
                    &&& e.description is None
                    &&& e.color is None
                    &&& e.footer is None
                    &&& e.timestamp is None
                    &&& shows_rows(e.fields@, rows_of(rs@))
                },
            },
    {
        match loaded {
            Err(e) => Err(e),
            Ok(rs) => {
                let fields = self.party_fields(rs);
                Ok(ResponseData { embed: Embed::with_fields(fields) })
            },
        }
    }
}

} // verus!
