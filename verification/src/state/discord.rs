//! What the client knows about Discord: guild members, presences, direct
//! message recipients and cached user profiles.
use crate::commands::PresenceStatus;
use crate::ids::{ChannelMarker, GuildMarker, Id, UserMarker};
use vstd::prelude::*;

verus! {

/// Kind of an activity that a user shows.
#[derive(Clone, Copy, Debug, PartialEq, Eq)]
pub enum ActivityKind {
    Playing,
    Streaming,
    Listening,
    Watching,
    Custom,
    Competing,
}

/// An activity that a user shows on their profile.
#[derive(Clone, Debug)]
pub struct ActivityInfo {
    pub kind: ActivityKind,
    pub name: String,
    pub details: Option<String>,
}

/// A user's profile as the profile endpoint returns it.
#[derive(Clone, Debug)]
pub struct UserProfileInfo {
    pub user_id: Id<UserMarker>,
    pub username: String,
    pub global_name: Option<String>,
    pub bio: Option<String>,
    pub avatar_url: Option<String>,
}

/// A member of a guild and the presence the member list shows for them.
#[derive(Clone, Copy, Debug)]
pub struct GuildMemberState {
    pub guild_id: Id<GuildMarker>,
    pub user_id: Id<UserMarker>,
    pub status: PresenceStatus,
}

/// A presence that a guild's presence updates reported for a user.
#[derive(Clone, Copy, Debug)]
pub struct GuildPresenceState {
    pub guild_id: Id<GuildMarker>,
    pub user_id: Id<UserMarker>,
    pub status: PresenceStatus,
}

/// A recipient of a direct message channel.
#[derive(Clone, Copy, Debug)]
pub struct ChannelRecipientState {
    pub user_id: Id<UserMarker>,
    pub status: PresenceStatus,
}

/// A direct message channel and its recipients.
#[derive(Clone, Debug)]
pub struct ChannelState {
    pub channel_id: Id<ChannelMarker>,
    pub recipients: Vec<ChannelRecipientState>,
}

/// A profile fetched for a user, in a guild or outside any.
#[derive(Clone, Debug)]
pub struct CachedUserProfile {
    pub user_id: Id<UserMarker>,
    pub guild_id: Option<Id<GuildMarker>>,
    pub profile: UserProfileInfo,
}

/// The last presence seen for a user anywhere.
#[derive(Clone, Copy, Debug)]
pub struct CachedPresence {
    pub user_id: Id<UserMarker>,
    pub status: PresenceStatus,
}

/// The activities seen for a user, in a guild or outside any.
#[derive(Clone, Debug)]
pub struct CachedActivities {
    pub guild_id: Option<Id<GuildMarker>>,
    pub user_id: Id<UserMarker>,
    pub activities: Vec<ActivityInfo>,
}

/// Data that was fetched once and is kept for reuse.
#[derive(Clone, Debug)]
pub struct DiscordCache {
    pub profiles: Vec<CachedUserProfile>,
    pub presences: Vec<CachedPresence>,
    pub activities: Vec<CachedActivities>,
}

/// The client's picture of Discord.
#[derive(Clone, Debug)]
pub struct DiscordState {
    pub guild_members: Vec<GuildMemberState>,
    pub guild_presences: Vec<GuildPresenceState>,
    pub direct_channels: Vec<ChannelState>,
    pub cache: DiscordCache,
}

/// Two optional guild identifiers name the same scope.
pub open spec fn same_guild_scope(a: Option<Id<GuildMarker>>, b: Option<Id<GuildMarker>>) -> bool {
    match (a, b) {
        (Some(x), Some(y)) => x@ == y@,
        (None, None) => true,
        _ => false,
    }
}

/// Status of the first member entry of `user` in `guild`.
pub open spec fn member_status(members: Seq<GuildMemberState>, guild: u64, user: u64) -> Option<
    PresenceStatus,
>
    decreases members.len(),
{
    if members.len() == 0 {
        None
    } else if members[0].guild_id@ == guild && members[0].user_id@ == user {
        Some(members[0].status)
    } else {
        member_status(members.drop_first(), guild, user)
    }
}

/// Status of the first presence reported for `user` in `guild`.
pub open spec fn guild_presence(presences: Seq<GuildPresenceState>, guild: u64, user: u64) -> Option<
    PresenceStatus,
>
    decreases presences.len(),
{
    if presences.len() == 0 {
        None
    } else if presences[0].guild_id@ == guild && presences[0].user_id@ == user {
        Some(presences[0].status)
    } else {
        guild_presence(presences.drop_first(), guild, user)
    }
}

/// Status of the first recipient entry of `user` in a list of recipients.
pub open spec fn recipient_status(recipients: Seq<ChannelRecipientState>, user: u64) -> Option<
    PresenceStatus,
>
    decreases recipients.len(),
{
    if recipients.len() == 0 {
        None
    } else if recipients[0].user_id@ == user {
        Some(recipients[0].status)
    } else {
        recipient_status(recipients.drop_first(), user)
    }
}

/// Status of `user` as the first direct message channel that lists them
/// shows it, channels and recipients taken in order.
pub open spec fn direct_recipient_status(channels: Seq<ChannelState>, user: u64) -> Option<
    PresenceStatus,
>
    decreases channels.len(),
{
    if channels.len() == 0 {
        None
    } else {
        match recipient_status(channels[0].recipients@, user) {
            Some(status) => Some(status),
            None => direct_recipient_status(channels.drop_first(), user),
        }
    }
}

/// The cached presence of `user`.
pub open spec fn cached_presence(presences: Seq<CachedPresence>, user: u64) -> Option<PresenceStatus>
    decreases presences.len(),
{
    if presences.len() == 0 {
        None
    } else if presences[0].user_id@ == user {
        Some(presences[0].status)
    } else {
        cached_presence(presences.drop_first(), user)
    }
}

/// Index of the cached profile of `user` in the given guild scope.
pub open spec fn cached_profile_index(
    profiles: Seq<CachedUserProfile>,
    user: u64,
    guild: Option<Id<GuildMarker>>,
    from: int,
) -> Option<int>
    decreases profiles.len() - from,
{
    if from < 0 || from >= profiles.len() {
        None
    } else if profiles[from].user_id@ == user && same_guild_scope(profiles[from].guild_id, guild) {
        Some(from)
    } else {
        cached_profile_index(profiles, user, guild, from + 1)
    }
}

/// Index of the cached activities of `user` in the given guild scope.
pub open spec fn cached_activities_index(
    activities: Seq<CachedActivities>,
    guild: Option<Id<GuildMarker>>,
    user: u64,
    from: int,
) -> Option<int>
    decreases activities.len() - from,
{
    if from < 0 || from >= activities.len() {
        None
    } else if activities[from].user_id@ == user && same_guild_scope(
        activities[from].guild_id,
        guild,
    ) {
        Some(from)
    } else {
        cached_activities_index(activities, guild, user, from + 1)
    }
}

fn same_scope(a: Option<Id<GuildMarker>>, b: Option<Id<GuildMarker>>) -> (same: bool)
    ensures
        same == same_guild_scope(a, b),
{
    match (a, b) {
        (Some(x), Some(y)) => x.same(&y),
        (None, None) => true,
        _ => false,
    }
}

impl DiscordState {
    /// The status the member list of `guild_id` shows for `user_id`.
    pub fn member_status(&self, guild_id: Id<GuildMarker>, user_id: Id<UserMarker>) -> (status:
        Option<PresenceStatus>)
        ensures
            status == member_status(self.guild_members@, guild_id@, user_id@),
    {
        let mut i: usize = 0;
        assert(self.guild_members@.skip(0) =~= self.guild_members@);
        while i < self.guild_members.len()
            invariant
                i <= self.guild_members.len(),
                member_status(self.guild_members@, guild_id@, user_id@) == member_status(
                    self.guild_members@.skip(i as int),
                    guild_id@,
                    user_id@,
                ),
            decreases self.guild_members.len() - i,
        {
            let member = &self.guild_members[i];
            assert(self.guild_members@.skip(i as int)[0] == *member);
            if member.guild_id.same(&guild_id) && member.user_id.same(&user_id) {
                return Some(member.status);
            }
            assert(self.guild_members@.skip(i as int).drop_first() =~= self.guild_members@.skip(
                i + 1,
            ));
            i += 1;
        }
        None
    }

    /// The presence that `guild_id`'s presence updates reported for `user_id`.
    pub fn user_presence_for_guild(
        &self,
        guild_id: Id<GuildMarker>,
        user_id: Id<UserMarker>,
    ) -> (status: Option<PresenceStatus>)
        ensures
            status == guild_presence(self.guild_presences@, guild_id@, user_id@),
    {
        let mut i: usize = 0;
        assert(self.guild_presences@.skip(0) =~= self.guild_presences@);
        while i < self.guild_presences.len()
            invariant
                i <= self.guild_presences.len(),
                guild_presence(self.guild_presences@, guild_id@, user_id@) == guild_presence(
                    self.guild_presences@.skip(i as int),
                    guild_id@,
                    user_id@,
                ),
            decreases self.guild_presences.len() - i,
        {
            let presence = &self.guild_presences[i];
            assert(self.guild_presences@.skip(i as int)[0] == *presence);
            if presence.guild_id.same(&guild_id) && presence.user_id.same(&user_id) {
                return Some(presence.status);
            }
            assert(self.guild_presences@.skip(i as int).drop_first()
                =~= self.guild_presences@.skip(i + 1));
            i += 1;
        }
        None
    }

    /// The status of `user_id` as a recipient of a direct message channel.
    pub fn direct_recipient_status(&self, user_id: Id<UserMarker>) -> (status: Option<
        PresenceStatus,
    >)
        ensures
            status == direct_recipient_status(self.direct_channels@, user_id@),
    {
        let mut i: usize = 0;
        assert(self.direct_channels@.skip(0) =~= self.direct_channels@);
        while i < self.direct_channels.len()
            invariant
                i <= self.direct_channels.len(),
                direct_recipient_status(self.direct_channels@, user_id@) == direct_recipient_status(
                    self.direct_channels@.skip(i as int),
                    user_id@,
                ),
            decreases self.direct_channels.len() - i,
        {
            let channel = &self.direct_channels[i];
            assert(self.direct_channels@.skip(i as int)[0] == *channel);
            let found = recipient_status_in(&channel.recipients, user_id);
            if found.is_some() {
                return found;
            }
            assert(self.direct_channels@.skip(i as int).drop_first()
                =~= self.direct_channels@.skip(i + 1));
            i += 1;
        }
        None
    }
}

fn recipient_status_in(recipients: &Vec<ChannelRecipientState>, user_id: Id<UserMarker>) -> (status:
    Option<PresenceStatus>)
    ensures
        status == recipient_status(recipients@, user_id@),
{
    let mut i: usize = 0;
    assert(recipients@.skip(0) =~= recipients@);
    while i < recipients.len()
        invariant
            i <= recipients.len(),
            recipient_status(recipients@, user_id@) == recipient_status(
                recipients@.skip(i as int),
                user_id@,
            ),
        decreases recipients.len() - i,
    {
        let recipient = &recipients[i];
        assert(recipients@.skip(i as int)[0] == *recipient);
        if recipient.user_id.same(&user_id) {
            return Some(recipient.status);
        }
        assert(recipients@.skip(i as int).drop_first() =~= recipients@.skip(i + 1));
        i += 1;
    }
    None
}

impl DiscordCache {
    /// The last presence seen for `user_id`.
    pub fn user_presence(&self, user_id: Id<UserMarker>) -> (status: Option<PresenceStatus>)
        ensures
            status == cached_presence(self.presences@, user_id@),
    {
        let mut i: usize = 0;
        assert(self.presences@.skip(0) =~= self.presences@);
        while i < self.presences.len()
            invariant
                i <= self.presences.len(),
                cached_presence(self.presences@, user_id@) == cached_presence(
                    self.presences@.skip(i as int),
                    user_id@,
                ),
            decreases self.presences.len() - i,
        {
            let presence = &self.presences[i];
            assert(self.presences@.skip(i as int)[0] == *presence);
            if presence.user_id.same(&user_id) {
                return Some(presence.status);
            }
            assert(self.presences@.skip(i as int).drop_first() =~= self.presences@.skip(i + 1));
            i += 1;
        }
        None
    }

    /// The profile fetched for `user_id` in the guild scope `guild_id`.
    pub fn user_profile(&self, user_id: Id<UserMarker>, guild_id: Option<Id<GuildMarker>>) -> (profile:
        Option<&UserProfileInfo>)
        ensures
            match cached_profile_index(self.profiles@, user_id@, guild_id, 0) {
                Some(i) => profile == Some(&self.profiles@[i].profile),
                None => profile is None,
            },
    {
        let mut i: usize = 0;
        while i < self.profiles.len()
            invariant
                i <= self.profiles.len(),
                cached_profile_index(self.profiles@, user_id@, guild_id, 0)
                    == cached_profile_index(self.profiles@, user_id@, guild_id, i as int),
            decreases self.profiles.len() - i,
        {
            let cached = &self.profiles[i];
            if cached.user_id.same(&user_id) && same_scope(cached.guild_id, guild_id) {
                return Some(&cached.profile);
            }
            i += 1;
        }
        None
    }

    /// The activities seen for `user_id` in the guild scope `guild_id`; none
    /// when nothing was seen.
    pub fn user_activities_for_guild(
        &self,
        guild_id: Option<Id<GuildMarker>>,
        user_id: Id<UserMarker>,
    ) -> (activities: &[ActivityInfo])
        ensures
            match cached_activities_index(self.activities@, guild_id, user_id@, 0) {
                Some(i) => activities@ == self.activities@[i].activities@,
                None => activities@.len() == 0,
            },
    {
        let mut i: usize = 0;
        while i < self.activities.len()
            invariant
                i <= self.activities.len(),
                cached_activities_index(self.activities@, guild_id, user_id@, 0)
                    == cached_activities_index(self.activities@, guild_id, user_id@, i as int),
            decreases self.activities.len() - i,
        {
            let cached = &self.activities[i];
            if cached.user_id.same(&user_id) && same_scope(cached.guild_id, guild_id) {
                return cached.activities.as_slice();
            }
            i += 1;
        }
        &[]
    }
}

/// Two guild scopes are the same when both are the same guild or both are
/// outside any guild.
pub proof fn lemma_same_guild_scope(a: Id<GuildMarker>, b: Id<GuildMarker>)
    ensures
        same_guild_scope(Some(a), Some(b)) <==> a@ == b@,
        same_guild_scope(None, None),
        !same_guild_scope(Some(a), None),
        !same_guild_scope(None, Some(a)),
{
}

/// The member status of a user in a guild is that of the first member entry
/// for that user in that guild, and there is none when no entry matches.
pub proof fn lemma_member_status_is_the_first_match(
    members: Seq<GuildMemberState>,
    guild: u64,
    user: u64,
)
    ensures
        match member_status(members, guild, user) {
            Some(status) => exists|i: int|
                0 <= i < members.len() && #[trigger] members[i].guild_id@ == guild
                    && members[i].user_id@ == user && members[i].status == status && forall|j: int|
                    0 <= j < i ==> !(members[j].guild_id@ == guild && members[j].user_id@ == user),
            None => forall|i: int|
                0 <= i < members.len() ==> !(#[trigger] members[i].guild_id@ == guild
                    && members[i].user_id@ == user),
        },
    decreases members.len(),
{
    if members.len() > 0 {
        let rest = members.drop_first();
        lemma_member_status_is_the_first_match(rest, guild, user);
        if !(members[0].guild_id@ == guild && members[0].user_id@ == user) {
            match member_status(rest, guild, user) {
                Some(status) => {
                    let i = choose|i: int|
                        0 <= i < rest.len() && #[trigger] rest[i].guild_id@ == guild
                            && rest[i].user_id@ == user && rest[i].status == status && forall|j: int|
                            0 <= j < i ==> !(rest[j].guild_id@ == guild && rest[j].user_id@ == user);
                    assert(members[i + 1] == rest[i]);
                    assert forall|j: int| 0 <= j < i + 1 implies !(members[j].guild_id@ == guild
                        && members[j].user_id@ == user) by {
                        if j > 0 {
                            assert(members[j] == rest[j - 1]);
                        }
                    }
                },
                None => {
                    assert forall|i: int| 0 <= i < members.len() implies !(
                    #[trigger] members[i].guild_id@ == guild && members[i].user_id@ == user) by {
                        if i > 0 {
                            assert(members[i] == rest[i - 1]);
                        }
                    }
                },
            }
        }
    }
}

/// The guild presence of a user is the first one reported for that user in
/// that guild, and there is none when none was reported.
pub proof fn lemma_guild_presence_is_the_first_match(
    presences: Seq<GuildPresenceState>,
    guild: u64,
    user: u64,
)
    ensures
        match guild_presence(presences, guild, user) {
            Some(status) => exists|i: int|
                0 <= i < presences.len() && #[trigger] presences[i].guild_id@ == guild
                    && presences[i].user_id@ == user && presences[i].status == status && forall|j: int|
                    0 <= j < i ==> !(presences[j].guild_id@ == guild && presences[j].user_id@ == user),
            None => forall|i: int|
                0 <= i < presences.len() ==> !(#[trigger] presences[i].guild_id@ == guild
                    && presences[i].user_id@ == user),
        },
    decreases presences.len(),
{
    if presences.len() > 0 {
        let rest = presences.drop_first();
        lemma_guild_presence_is_the_first_match(rest, guild, user);
        if !(presences[0].guild_id@ == guild && presences[0].user_id@ == user) {
            match guild_presence(rest, guild, user) {
                Some(status) => {
                    let i = choose|i: int|
                        0 <= i < rest.len() && #[trigger] rest[i].guild_id@ == guild
                            && rest[i].user_id@ == user && rest[i].status == status && forall|j: int|
                            0 <= j < i ==> !(rest[j].guild_id@ == guild && rest[j].user_id@ == user);
                    assert(presences[i + 1] == rest[i]);
                    assert forall|j: int| 0 <= j < i + 1 implies !(presences[j].guild_id@ == guild
                        && presences[j].user_id@ == user) by {
                        if j > 0 {
                            assert(presences[j] == rest[j - 1]);
                        }
                    }
                },
                None => {
                    assert forall|i: int| 0 <= i < presences.len() implies !(
                    #[trigger] presences[i].guild_id@ == guild && presences[i].user_id@ == user) by {
                        if i > 0 {
                            assert(presences[i] == rest[i - 1]);
                        }
                    }
                },
            }
        }
    }
}

/// A recipient's status is that of the first entry for that user.
pub proof fn lemma_recipient_status_is_the_first_match(
    recipients: Seq<ChannelRecipientState>,
    user: u64,
)
    ensures
        match recipient_status(recipients, user) {
            Some(status) => exists|i: int|
                0 <= i < recipients.len() && #[trigger] recipients[i].user_id@ == user
                    && recipients[i].status == status && forall|j: int|
                    0 <= j < i ==> recipients[j].user_id@ != user,
            None => forall|i: int| 0 <= i < recipients.len() ==> #[trigger] recipients[i].user_id@ != user,
        },
    decreases recipients.len(),
{
    if recipients.len() > 0 {
        let rest = recipients.drop_first();
        lemma_recipient_status_is_the_first_match(rest, user);
        if recipients[0].user_id@ != user {
            match recipient_status(rest, user) {
                Some(status) => {
                    let i = choose|i: int|
                        0 <= i < rest.len() && #[trigger] rest[i].user_id@ == user && rest[i].status
                            == status && forall|j: int| 0 <= j < i ==> rest[j].user_id@ != user;
                    assert(recipients[i + 1] == rest[i]);
                    assert forall|j: int| 0 <= j < i + 1 implies recipients[j].user_id@ != user by {
                        if j > 0 {
                            assert(recipients[j] == rest[j - 1]);
                        }
                    }
                },
                None => {
                    assert forall|i: int| 0 <= i < recipients.len() implies #[trigger] recipients[i].user_id@
                        != user by {
                        if i > 0 {
                            assert(recipients[i] == rest[i - 1]);
                        }
                    }
                },
            }
        }
    }
}

/// A cached presence is the first one cached for that user.
pub proof fn lemma_cached_presence_is_the_first_match(presences: Seq<CachedPresence>, user: u64)
    ensures
        match cached_presence(presences, user) {
            Some(status) => exists|i: int|
                0 <= i < presences.len() && #[trigger] presences[i].user_id@ == user
                    && presences[i].status == status && forall|j: int|
                    0 <= j < i ==> presences[j].user_id@ != user,
            None => forall|i: int| 0 <= i < presences.len() ==> #[trigger] presences[i].user_id@ != user,
        },
    decreases presences.len(),
{
    if presences.len() > 0 {
        let rest = presences.drop_first();
        lemma_cached_presence_is_the_first_match(rest, user);
        if presences[0].user_id@ != user {
            match cached_presence(rest, user) {
                Some(status) => {
                    let i = choose|i: int|
                        0 <= i < rest.len() && #[trigger] rest[i].user_id@ == user && rest[i].status
                            == status && forall|j: int| 0 <= j < i ==> rest[j].user_id@ != user;
                    assert(presences[i + 1] == rest[i]);
                    assert forall|j: int| 0 <= j < i + 1 implies presences[j].user_id@ != user by {
                        if j > 0 {
                            assert(presences[j] == rest[j - 1]);
                        }
                    }
                },
                None => {
                    assert forall|i: int| 0 <= i < presences.len() implies #[trigger] presences[i].user_id@
                        != user by {
                        if i > 0 {
                            assert(presences[i] == rest[i - 1]);
                        }
                    }
                },
            }
        }
    }
}

/// The direct message status of a user comes from the first channel, in
/// order, that lists the user.
pub proof fn lemma_direct_recipient_status_is_the_first_channel(channels: Seq<ChannelState>, user: u64)
    ensures
        match direct_recipient_status(channels, user) {
            Some(status) => exists|c: int|
                0 <= c < channels.len() && #[trigger] recipient_status(channels[c].recipients@, user)
                    == Some(status) && forall|d: int|
                    0 <= d < c ==> recipient_status(channels[d].recipients@, user) is None,
            None => forall|c: int|
                0 <= c < channels.len() ==> #[trigger] recipient_status(channels[c].recipients@, user)
                    is None,
        },
    decreases channels.len(),
{
    if channels.len() > 0 {
        let rest = channels.drop_first();
        lemma_direct_recipient_status_is_the_first_channel(rest, user);
        if recipient_status(channels[0].recipients@, user) is None {
            match direct_recipient_status(rest, user) {
                Some(status) => {
                    let c = choose|c: int|
                        0 <= c < rest.len() && #[trigger] recipient_status(rest[c].recipients@, user)
                            == Some(status) && forall|d: int|
                            0 <= d < c ==> recipient_status(rest[d].recipients@, user) is None;
                    assert(channels[c + 1] == rest[c]);
                    assert forall|d: int| 0 <= d < c + 1 implies recipient_status(
                        channels[d].recipients@,
                        user,
                    ) is None by {
                        if d > 0 {
                            assert(channels[d] == rest[d - 1]);
                        }
                    }
                },
                None => {
                    assert forall|c: int| 0 <= c < channels.len() implies #[trigger] recipient_status(
                        channels[c].recipients@,
                        user,
                    ) is None by {
                        if c > 0 {
                            assert(channels[c] == rest[c - 1]);
                        }
                    }
                },
            }
        }
    }
}

/// A cached profile or activity list is found at the first entry, from
/// `from` on, for that user in that guild scope.
pub proof fn lemma_cache_lookups_find_the_first_match(
    profiles: Seq<CachedUserProfile>,
    activities: Seq<CachedActivities>,
    user: u64,
    guild: Option<Id<GuildMarker>>,
    from: int,
)
    requires
        0 <= from,
    ensures
        match cached_profile_index(profiles, user, guild, from) {
            Some(i) => from <= i < profiles.len() && profiles[i].user_id@ == user && same_guild_scope(
                profiles[i].guild_id,
                guild,
            ) && forall|j: int|
                from <= j < i ==> !(#[trigger] profiles[j].user_id@ == user && same_guild_scope(
                    profiles[j].guild_id,
                    guild,
                )),
            None => forall|j: int|
                from <= j < profiles.len() ==> !(#[trigger] profiles[j].user_id@ == user
                    && same_guild_scope(profiles[j].guild_id, guild)),
        },
        match cached_activities_index(activities, guild, user, from) {
            Some(i) => from <= i < activities.len() && activities[i].user_id@ == user
                && same_guild_scope(activities[i].guild_id, guild) && forall|j: int|
                from <= j < i ==> !(#[trigger] activities[j].user_id@ == user && same_guild_scope(
                    activities[j].guild_id,
                    guild,
                )),
            None => forall|j: int|
                from <= j < activities.len() ==> !(#[trigger] activities[j].user_id@ == user
                    && same_guild_scope(activities[j].guild_id, guild)),
        },
    decreases (if profiles.len() > activities.len() {
        profiles.len()
    } else {
        activities.len()
    }) - from,
{
    if from < profiles.len() || from < activities.len() {
        lemma_cache_lookups_find_the_first_match(profiles, activities, user, guild, from + 1);
    }
}

} // verus!
