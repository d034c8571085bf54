//! A model of the one table the daemon owns in every database file:
//! `meta(rev INTEGER PRIMARY KEY, ts INTEGER)`.
//!
//! The engine holds the real table; the functions here state what the
//! daemon's migrations and its revision bump do to it, and the laws that
//! follow: the table holds exactly one row once initialized, and the
//! revision in that row moves up by exactly one per successful write batch.

use vstd::prelude::*;

verus! {

/// One row of `meta`: the revision counter and the Unix-epoch second of its
/// last change.
#[derive(Debug, Clone, Copy, PartialEq, Eq, Structural)]
pub struct MetaRow {
    pub rev: i64,
    pub ts: i64,
}

/// The contents of the `meta` table.
#[derive(Debug, Clone, PartialEq, Eq)]
pub struct MetaTable {
    pub rows: Vec<MetaRow>,
}

/// What migration does: a table still empty receives the single row
/// `(rev = 0, ts = now)`; any other contents are left alone.
pub open spec fn spec_migrate(t: MetaTable, now_ts: i64) -> Seq<MetaRow> {
    if t.rows@.len() == 0 {
        seq![MetaRow { rev: 0, ts: now_ts }]
    } else {
        t.rows@
    }
}

/// What the revision bump does to the single row: `rev` up by one, `ts`
/// stamped.
pub open spec fn spec_bump(row: MetaRow, now_ts: i64) -> MetaRow
    recommends
        row.rev < i64::MAX,
{
    MetaRow { rev: (row.rev + 1) as i64, ts: now_ts }
}

impl MetaTable {
    /// The table an engine shows for a database file it just created.
    pub fn new_empty() -> (t: Self)
        ensures
            t.rows@.len() == 0,
    {
        MetaTable { rows: Vec::new() }
    }

    /// The table holds exactly one row, as it does from first initialization
    /// on.
    pub open spec fn well_formed(self) -> bool {
        self.rows@.len() == 1
    }

    /// The revision persisted in the table.
    pub open spec fn spec_rev(self) -> i64
        recommends
            self.well_formed(),
    {
        self.rows@[0].rev
    }

    /// Runs the daemon's migrations: create the table if absent (absence is
    /// an empty model), and insert the initial `(rev = 0, ts = now)` row if
    /// the table is empty.
    pub fn migrate(&mut self, now_ts: i64)
        ensures
            final(self).rows@ == spec_migrate(*old(self), now_ts),
            old(self).rows@.len() <= 1 ==> final(self).well_formed(),
    {
        if self.rows.len() == 0 {
            self.rows.push(MetaRow { rev: 0, ts: now_ts });
        }
        proof {
            assert(self.rows@ =~= spec_migrate(*old(self), now_ts));
        }
    }

    /// Reads the persisted revision, as `SELECT rev FROM meta` does.
    pub fn read_rev(&self) -> (r: i64)
        requires
            self.well_formed(),
        ensures
            r == self.spec_rev(),
    {
        self.rows[0].rev
    }

    /// Bumps the revision by exactly one and stamps the time, as the
    /// daemon's `UPDATE meta SET rev = rev + 1, ts = ?` does.
    pub fn bump(&mut self, now_ts: i64) -> (r: i64)
        requires
            old(self).well_formed(),
            old(self).spec_rev() < i64::MAX,
        ensures
            final(self).well_formed(),
            final(self).rows@[0] == spec_bump(old(self).rows@[0], now_ts),
            final(self).spec_rev() == old(self).spec_rev() + 1,
            r == final(self).spec_rev(),
    {
        let row = self.rows[0];
        let bumped = MetaRow { rev: row.rev + 1, ts: now_ts };
        self.rows.set(0, bumped);
        bumped.rev
    }
}

/// Law: exactly one row exists in `meta` at all times after first
/// initialization — migration of an absent or empty table creates the one
/// row and stamps it with revision zero, migration of an initialized table
/// changes nothing, and the revision bump rewrites the one row in place, so
/// no operation of the daemon ever makes the count differ from one.
pub proof fn lemma_meta_single_row(t: MetaTable, now_ts: i64)
    ensures
        t.rows@.len() == 0 ==> spec_migrate(t, now_ts).len() == 1 && spec_migrate(t, now_ts)[0]
            == (MetaRow { rev: 0, ts: now_ts }),
        t.well_formed() ==> spec_migrate(t, now_ts) == t.rows@,
{
}

/// Law: the revision bump moves the persisted revision up by exactly one,
/// never more and never less.
pub proof fn lemma_bump_adds_one(row: MetaRow, ts: i64)
    requires
        row.rev < i64::MAX,
    ensures
        spec_bump(row, ts).rev == row.rev + 1,
{
}

} // verus!
