//! A frame: the admins, members and teams of the organization at one moment,
//! each list in order, with the time that taking it took.

use crate::model::{Bootstrap, Member, MemberView, Team, TeamView};
use crate::paginate::views;
use crate::sort::{
    in_order, lemma_pair_total, lemma_pair_transitive, pair_before, pair_le, sorted, Ranked,
};
use vstd::prelude::*;

verus! {

/// The token and the organization as the configuration file holds them.
#[derive(Debug)]
pub struct Configuration {
    pub token: String,
    pub organization: String,
}

impl Configuration {
    /// The context for the requests that the configuration stands for.
    pub fn bootstrap(&self) -> (r: Bootstrap)
        ensures
            r == (Bootstrap { token: self.token, org: self.organization }),
    {
        Bootstrap { token: self.token.clone(), org: self.organization.clone() }
    }
}

impl From<&Configuration> for Bootstrap {
    fn from(configuration: &Configuration) -> (r: Bootstrap) {
        configuration.bootstrap()
    }
}

impl vstd::std_specs::convert::FromSpecImpl<&Configuration> for Bootstrap {
    open spec fn obeys_from_spec() -> bool {
        true
    }

    open spec fn from_spec(configuration: &Configuration) -> Bootstrap {
        Bootstrap { token: configuration.token, org: configuration.organization }
    }
}

/// When a frame was taken.
#[derive(Clone, Copy, Debug, PartialEq, Eq, Structural)]
pub struct ShutterData {
    /// How long taking the frame took, in whole seconds.
    pub shutter_speed: u64,
    /// When taking the frame began, in seconds since the epoch.
    pub open: u64,
    /// When taking the frame ended, in seconds since the epoch.
    pub close: u64,
}

/// A moment: the whole seconds since the epoch, and the nanoseconds into
/// the second.
#[derive(Clone, Copy, Debug, PartialEq, Eq, Structural)]
pub struct Moment {
    pub secs: u64,
    pub nanos: u32,
}

impl Moment {
    /// The moment in nanoseconds since the epoch.
    pub open spec fn instant(self) -> int {
        self.secs * 1_000_000_000 + self.nanos
    }
}

/// The organization's permissions at one moment.
#[derive(Debug)]
pub struct Frame {
    pub organization_admins: Vec<Member>,
    pub organization_members: Vec<Member>,
    pub organization_teams: Vec<Team>,
    pub shutter_data: ShutterData,
}

impl Ranked for Member {
    /// Members are ordered by login, and by avatar where the login is the
    /// same.
    open spec fn precedes(a: MemberView, b: MemberView) -> bool {
        pair_le((a.login, a.avatar_url), (b.login, b.avatar_url))
    }

    fn comes_first(&self, other: &Self) -> (r: bool) {
        pair_before(
            (self.login.as_str(), self.avatar_url.as_str()),
            (other.login.as_str(), other.avatar_url.as_str()),
        )
    }

    proof fn lemma_total(a: MemberView, b: MemberView) {
        lemma_pair_total((a.login, a.avatar_url), (b.login, b.avatar_url));
    }

    proof fn lemma_transitive(a: MemberView, b: MemberView, c: MemberView) {
        lemma_pair_transitive(
            (a.login, a.avatar_url),
            (b.login, b.avatar_url),
            (c.login, c.avatar_url),
        );
    }
}

impl Ranked for Team {
    /// Teams are ordered by slug, and by name where the slug is the same.
    open spec fn precedes(a: TeamView, b: TeamView) -> bool {
        pair_le((a.slug, a.name), (b.slug, b.name))
    }

    fn comes_first(&self, other: &Self) -> (r: bool) {
        pair_before(
            (self.slug.as_str(), self.name.as_str()),
            (other.slug.as_str(), other.name.as_str()),
        )
    }

    proof fn lemma_total(a: TeamView, b: TeamView) {
        lemma_pair_total((a.slug, a.name), (b.slug, b.name));
    }

    proof fn lemma_transitive(a: TeamView, b: TeamView, c: TeamView) {
        lemma_pair_transitive((a.slug, a.name), (b.slug, b.name), (c.slug, c.name));
    }
}

/// The whole seconds from one moment to a later one.
pub fn elapsed_secs(start: Moment, end: Moment) -> (r: u64)
    requires
        start.nanos < 1_000_000_000,
        end.nanos < 1_000_000_000,
        start.instant() <= end.instant(),
    ensures
        r == (end.instant() - start.instant()) / 1_000_000_000,
{
    if end.nanos >= start.nanos {
        end.secs - start.secs
    } else {
        end.secs - start.secs - 1
    }
}

impl Frame {
    /// The frame of what was fetched between `start` and `end`: every list
    /// in order, and the times in whole seconds.
    pub fn generate(
        organization_admins: Vec<Member>,
        organization_members: Vec<Member>,
        organization_teams: Vec<Team>,
        start: Moment,
        end: Moment,
    ) -> (r: Frame)
        requires
            start.nanos < 1_000_000_000,
            end.nanos < 1_000_000_000,
            start.instant() <= end.instant(),
        ensures
            in_order::<Member>(views(r.organization_admins@)),
            views(r.organization_admins@).to_multiset() == views(
                organization_admins@,
            ).to_multiset(),
            in_order::<Member>(views(r.organization_members@)),
            views(r.organization_members@).to_multiset() == views(
                organization_members@,
            ).to_multiset(),
            in_order::<Team>(views(r.organization_teams@)),
            views(r.organization_teams@).to_multiset() == views(
                organization_teams@,
            ).to_multiset(),
            r.shutter_data.open == start.secs,
            r.shutter_data.close == end.secs,
            r.shutter_data.shutter_speed == (end.instant() - start.instant()) / 1_000_000_000,
    {
        Frame {
            organization_admins: sorted(organization_admins),
            organization_members: sorted(organization_members),
            organization_teams: sorted(organization_teams),
            shutter_data: ShutterData {
                shutter_speed: elapsed_secs(start, end),
                open: start.secs,
                close: end.secs,
            },
        }
    }
}

} // verus!
