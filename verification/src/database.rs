//! The persistence gateway: the guilds and infractions that the bot keeps,
//! and the operations on them.

use crate::structs::{DbConfig, Guild, GuildView, Infraction, InfractionView};
use vstd::prelude::*;
use vstd::string::*;

verus! {

/// How to open the pool of connections to the database.
#[derive(Debug, PartialEq, Eq)]
pub struct PoolOptions {
    pub min_connections: u32,
    pub max_connections: u32,
    pub host: String,
    pub port: u16,
    pub username: String,
    pub password: String,
    pub database: String,
}

/// Lays down how the pool of connections is opened: between 5 and 100
/// connections to the database `rusty`, at the place and under the login
/// that the settings give.
pub fn connect(db_config: &DbConfig) -> (r: PoolOptions)
    ensures
        r.min_connections == 5,
        r.max_connections == 100,
        r.host@ == db_config@.host,
        r.port == db_config@.port,
        r.username@ == db_config@.username,
        r.password@ == db_config@.password,
        r.database@ == "rusty"@,
{
    PoolOptions {
        min_connections: 5,
        max_connections: 100,
        host: db_config.host.clone(),
        port: db_config.port,
        username: db_config.username.clone(),
        password: db_config.password.clone(),
        database: String::from_str("rusty"),
    }
}

/// Whether the answer to a count of a guild's rows says that the guild has a
/// row. A count that failed or gave nothing says that it has none.
pub open spec fn spec_count_says_exists(count: Option<i64>) -> bool {
    count matches Some(c) && c > 0
}

/// Reads the answer to a count of a guild's rows: `count` is the number that
/// the store gave, or `None` where the count failed or gave nothing.
pub fn count_says_exists(count: Option<i64>) -> (r: bool)
    ensures
        r == spec_count_says_exists(count),
{
    match count {
        Some(c) => c > 0,
        None => false,
    }
}

/// Whether the table holds a row of the guild with this id.
pub open spec fn spec_guild_exists(guilds: Seq<GuildView>, id: Seq<char>) -> bool {
    exists|i: int| 0 <= i < guilds.len() && #[trigger] guilds[i].id == id
}

/// Whether no two rows of the table belong to the same guild.
pub open spec fn spec_unique_ids(guilds: Seq<GuildView>) -> bool {
    forall|i: int, j: int|
        0 <= i < j < guilds.len() ==> #[trigger] guilds[i].id != #[trigger] guilds[j].id
}

/// The table after `insert_guild`: unchanged where the guild has a row, one
/// row longer where it has none.
pub open spec fn spec_insert_guild(guilds: Seq<GuildView>, guild: GuildView) -> Seq<GuildView> {
    if spec_guild_exists(guilds, guild.id) {
        guilds
    } else {
        guilds.push(guild)
    }
}

/// The row of the guild with this id, if the table holds one.
pub open spec fn spec_get_guild(guilds: Seq<GuildView>, id: Seq<char>) -> Option<GuildView> {
    if spec_guild_exists(guilds, id) {
        Some(guilds[choose|i: int| 0 <= i < guilds.len() && #[trigger] guilds[i].id == id])
    } else {
        None
    }
}

/// An infraction as the store writes it: stamped with the store's clock.
pub open spec fn spec_stamped(infraction: InfractionView, now: i64) -> InfractionView {
    InfractionView { created_at: Some(now), ..infraction }
}

/// The rows that record actions against the member in the guild, in the
/// order in which they were written.
pub open spec fn spec_get_infractions(
    rows: Seq<InfractionView>,
    guild_id: Seq<char>,
    member_id: Seq<char>,
) -> Seq<InfractionView>
    decreases rows.len(),
{
    if rows.len() == 0 {
        seq![]
    } else {
        let earlier = spec_get_infractions(rows.drop_last(), guild_id, member_id);
        if rows.last().guild_id == guild_id && rows.last().member_id == member_id {
            earlier.push(rows.last())
        } else {
            earlier
        }
    }
}

/// The two tables of the bot, held in memory: one row for each guild, and
/// the infractions in the order in which they were written.
#[derive(Debug)]
pub struct Store {
    guilds: Vec<Guild>,
    infractions: Vec<Infraction>,
}

impl Store {
    /// The rows of the guild table, in the order in which they were written.
    pub closed spec fn guilds(&self) -> Seq<GuildView> {
        self.guilds.deep_view()
    }

    /// The rows of the infraction table, in the order in which they were
    /// written.
    pub closed spec fn infractions(&self) -> Seq<InfractionView> {
        self.infractions.deep_view()
    }

    #[verifier::type_invariant]
    spec fn well_formed(&self) -> bool {
        spec_unique_ids(self.guilds())
    }

    /// A store without rows.
    pub fn new() -> (r: Store)
        ensures
            r.guilds() == Seq::<GuildView>::empty(),
            r.infractions() == Seq::<InfractionView>::empty(),
    {
        let r = Store { guilds: Vec::new(), infractions: Vec::new() };
        assert(r.guilds() =~= Seq::<GuildView>::empty());
        assert(r.infractions() =~= Seq::<InfractionView>::empty());
        r
    }

    /// The number of guild rows.
    pub fn guild_count(&self) -> (r: usize)
        ensures
            r == self.guilds().len(),
    {
        self.guilds.len()
    }

    /// The number of infraction rows.
    pub fn infraction_count(&self) -> (r: usize)
        ensures
            r == self.infractions().len(),
    {
        self.infractions.len()
    }
}

fn find_guild(store: &Store, guild_id: &String) -> (r: Option<usize>)
    ensures
        spec_unique_ids(store.guilds()),
        match r {
            Some(i) => i < store.guilds().len() && store.guilds()[i as int].id == guild_id@
                && store.guilds()[i as int] == store.guilds@[i as int]@,
            None => !spec_guild_exists(store.guilds(), guild_id@),
        },
{
    proof {
        use_type_invariant(store);
    }
    let mut i: usize = 0;
    while i < store.guilds.len()
        invariant
            i <= store.guilds@.len(),
            store.guilds().len() == store.guilds@.len(),
            spec_unique_ids(store.guilds()),
            forall|j: int| 0 <= j < i ==> (#[trigger] store.guilds()[j]).id != guild_id@,
        decreases store.guilds@.len() - i,
    {
        assert(store.guilds()[i as int] == store.guilds@[i as int]@);
        if store.guilds[i].id == *guild_id {
            return Some(i);
        }
        i = i + 1;
    }
    None
}

/// Tells whether the guild with this id has a row.
pub fn guild_exists(store: &Store, guild_id: &String) -> (r: bool)
    ensures
        r == spec_guild_exists(store.guilds(), guild_id@),
{
    find_guild(store, guild_id).is_some()
}

/// Writes the row of a guild, unless the guild has one: then nothing is
/// written and the result is `false`.
pub fn insert_guild(store: &mut Store, guild: &Guild) -> (r: bool)
    ensures
        r == !spec_guild_exists(old(store).guilds(), guild@.id),
        final(store).guilds() == spec_insert_guild(old(store).guilds(), guild@),
        final(store).infractions() == old(store).infractions(),
        spec_unique_ids(final(store).guilds()),
{
    proof {
        use_type_invariant(&*store);
    }
    if guild_exists(store, &guild.id) {
        return false;
    }
    let ghost before = store.guilds();
    let mut guilds: Vec<Guild> = Vec::new();
    core::mem::swap(&mut store.guilds, &mut guilds);
    guilds.push(guild.clone());
    proof {
        let after = guilds.deep_view();
        assert(after =~= before.push(guild@));
        assert forall|i: int, j: int| 0 <= i < j < after.len() implies (#[trigger] after[i]).id
            != (#[trigger] after[j]).id by {
            if j == before.len() {
                assert(before[i].id != guild@.id);
            } else {
                assert(before[i].id != before[j].id);
            }
        }
    }
    core::mem::swap(&mut store.guilds, &mut guilds);
    proof {
        use_type_invariant(&*store);
        assert(store.guilds() =~= before.push(guild@));
    }
    true
}

/// Looks up the row of the guild with this id.
pub fn get_guild(store: &Store, guild_id: &String) -> (r: Option<Guild>)
    ensures
        r is Some <==> spec_guild_exists(store.guilds(), guild_id@),
        r.deep_view() == spec_get_guild(store.guilds(), guild_id@),
        r matches Some(g) ==> g@.id == guild_id@ && store.guilds().contains(g@),
        spec_unique_ids(store.guilds()),
{
    match find_guild(store, guild_id) {
        Some(i) => {
            let g = store.guilds[i].clone();
            proof {
                let rows = store.guilds();
                assert(rows[i as int] == g@);
                let chosen = choose|k: int|
                    0 <= k < rows.len() && #[trigger] rows[k].id == guild_id@;
                if chosen < i {
                    assert(rows[chosen].id != rows[i as int].id);
                } else if i < chosen {
                    assert(rows[i as int].id != rows[chosen].id);
                }
            }
            Some(g)
        },
        None => None,
    }
}

/// Writes an infraction at the end of the table, stamped with `now`, the
/// reading of the store's clock.
pub fn insert_infraction(store: &mut Store, infraction: &Infraction, now: i64)
    ensures
        final(store).infractions() == old(store).infractions().push(
            spec_stamped(infraction@, now),
        ),
        final(store).guilds() == old(store).guilds(),
{
    proof {
        use_type_invariant(&*store);
    }
    let ghost before = store.infractions();
    let mut row = infraction.clone();
    row.created_at = Some(now);
    let mut rows: Vec<Infraction> = Vec::new();
    core::mem::swap(&mut store.infractions, &mut rows);
    rows.push(row);
    core::mem::swap(&mut store.infractions, &mut rows);
    assert(store.infractions() =~= before.push(spec_stamped(infraction@, now)));
}

/// Lists the infractions of the member in the guild, in the order in which
/// they were written.
pub fn get_infractions(store: &Store, guild_id: &str, member_id: &str) -> (r: Vec<Infraction>)
    ensures
        r.deep_view() == spec_get_infractions(store.infractions(), guild_id@, member_id@),
{
    let guild = String::from_str(guild_id);
    let member = String::from_str(member_id);
    let mut found: Vec<Infraction> = Vec::new();
    let ghost rows = store.infractions();
    assert(found.deep_view() =~= spec_get_infractions(rows.take(0), guild_id@, member_id@));
    let mut i: usize = 0;
    while i < store.infractions.len()
        invariant
            i <= store.infractions@.len(),
            rows == store.infractions(),
            rows.len() == store.infractions@.len(),
            guild@ == guild_id@,
            member@ == member_id@,
            found.deep_view() == spec_get_infractions(rows.take(i as int), guild_id@, member_id@),
        decreases store.infractions@.len() - i,
    {
        let row = &store.infractions[i];
        assert(rows[i as int] == row@);
        assert(rows.take(i + 1).drop_last() == rows.take(i as int));
        assert(rows.take(i + 1).last() == rows[i as int]);
        if row.guild_id == guild && row.member_id == member {
            let ghost before = found.deep_view();
            found.push(row.clone());
            assert(found.deep_view() =~= before.push(row@));
        }
        i = i + 1;
    }
    assert(rows.take(i as int) == rows);
    found
}

/// Writing the row of a guild twice is writing it once: the second call finds
/// the row, writes nothing and leaves the table as the first call left it,
/// and the table never holds two rows of one guild.
pub proof fn law_insert_guild_twice(guilds: Seq<GuildView>, first: GuildView, second: GuildView)
    requires
        first.id == second.id,
    ensures
        spec_guild_exists(spec_insert_guild(guilds, first), second.id),
        spec_insert_guild(spec_insert_guild(guilds, first), second) == spec_insert_guild(
            guilds,
            first,
        ),
        spec_unique_ids(guilds) ==> spec_unique_ids(spec_insert_guild(guilds, first)),
{
    let once = spec_insert_guild(guilds, first);
    if spec_guild_exists(guilds, first.id) {
    } else {
        assert(once[guilds.len() as int].id == second.id);
        if spec_unique_ids(guilds) {
            assert forall|i: int, j: int| 0 <= i < j < once.len() implies (#[trigger] once[i]).id
                != (#[trigger] once[j]).id by {
                if j == guilds.len() {
                    assert(guilds[i].id != first.id);
                } else {
                    assert(guilds[i].id != guilds[j].id);
                }
            }
        }
    }
}

proof fn lemma_two_more_infractions(
    rows: Seq<InfractionView>,
    first: InfractionView,
    second: InfractionView,
)
    requires
        first.guild_id == second.guild_id,
        first.member_id != second.member_id,
    ensures
        spec_get_infractions(rows.push(first).push(second), first.guild_id, first.member_id)
            == spec_get_infractions(rows, first.guild_id, first.member_id).push(first),
{
    let one = rows.push(first);
    let two = one.push(second);
    assert(two.drop_last() == one);
    assert(one.drop_last() == rows);
    assert(spec_get_infractions(two, first.guild_id, first.member_id) == spec_get_infractions(
        one,
        first.guild_id,
        first.member_id,
    ));
}

/// The infractions of one member do not show among those of another: after
/// two infractions are written for different members of one guild, the list
/// of the first member is what it was before with the first infraction
/// added. In a store that was empty it holds exactly that one row.
pub proof fn law_infractions_are_kept_apart(
    rows: Seq<InfractionView>,
    first: InfractionView,
    second: InfractionView,
    now: i64,
    later: i64,
)
    requires
        first.guild_id == second.guild_id,
        first.member_id != second.member_id,
    ensures
        spec_get_infractions(
            rows.push(spec_stamped(first, now)).push(spec_stamped(second, later)),
            first.guild_id,
            first.member_id,
        ) == spec_get_infractions(rows, first.guild_id, first.member_id).push(
            spec_stamped(first, now),
        ),
        spec_get_infractions(
            Seq::<InfractionView>::empty().push(spec_stamped(first, now)).push(
                spec_stamped(second, later),
            ),
            first.guild_id,
            first.member_id,
        ) == seq![spec_stamped(first, now)],
{
    let empty = Seq::<InfractionView>::empty();
    lemma_two_more_infractions(rows, spec_stamped(first, now), spec_stamped(second, later));
    lemma_two_more_infractions(empty, spec_stamped(first, now), spec_stamped(second, later));
    assert(spec_get_infractions(empty, first.guild_id, first.member_id) == empty);
    assert(empty.push(spec_stamped(first, now)) == seq![spec_stamped(first, now)]);
}

} // verus!
