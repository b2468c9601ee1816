//! Teams and their members.

use vstd::prelude::*;
use crate::clock::{system_time, Timestamp};
use crate::ident::{is_random_v4, random_id, EntityId};
use crate::value_objects::enums::TeamMemberRole;

verus! {

/// A team.
#[derive(Clone, Debug)]
pub struct Team {
    pub id: EntityId,
    pub name: String,
    pub description: Option<String>,
    pub lead_id: Option<EntityId>,
    pub created_at: Timestamp,
    pub updated_at: Timestamp,
}

impl Team {
    /// The team after its lead was set at the moment `now`.
    pub open spec fn led_by(self, lead_id: Option<EntityId>, now: Timestamp) -> Team {
        Team { lead_id, updated_at: now, ..self }
    }

    /// A new team under a fresh identifier, created and updated at the
    /// present moment.
    pub fn new(name: String, description: Option<String>, lead_id: Option<EntityId>) -> (team: Team)
        ensures
            is_random_v4(team.id.0),
            team.name == name,
            team.description == description,
            team.lead_id == lead_id,
            team.created_at == team.updated_at,
            team.created_at.is_clock_reading(),
    {
        let now = system_time();
        Team { id: random_id(), name, description, lead_id, created_at: now, updated_at: now }
    }

    /// Sets or clears the lead and stamps the team with the present moment.
    pub fn set_lead(&mut self, lead_id: Option<EntityId>)
        ensures
            *final(self) == old(self).led_by(lead_id, final(self).updated_at),
            final(self).updated_at.is_clock_reading(),
    {
        self.lead_id = lead_id;
        self.updated_at = system_time();
    }
}

/// The membership of a user in a team.
#[derive(Clone, Debug)]
pub struct TeamMember {
    pub id: EntityId,
    pub team_id: EntityId,
    pub user_id: EntityId,
    pub role: TeamMemberRole,
    pub joined_at: Timestamp,
}

impl TeamMember {
    /// A new membership under a fresh identifier, joined at the present
    /// moment. The role is `Member` unless one is given.
    pub fn new(team_id: EntityId, user_id: EntityId, role: Option<TeamMemberRole>) -> (member:
        TeamMember)
        ensures
            is_random_v4(member.id.0),
            member.team_id == team_id,
            member.user_id == user_id,
            member.role == match role {
                Some(r) => r,
                None => TeamMemberRole::Member,
            },
            member.joined_at.is_clock_reading(),
    {
        TeamMember {
            id: random_id(),
            team_id,
            user_id,
            role: match role {
                Some(r) => r,
                None => TeamMemberRole::Member,
            },
            joined_at: system_time(),
        }
    }

    /// Whether the member leads the team.
    pub fn is_lead(&self) -> (r: bool)
        ensures
            r == (self.role == TeamMemberRole::Lead),
    {
        matches!(self.role, TeamMemberRole::Lead)
    }

    /// Makes the member the lead; nothing else changes.
    pub fn promote_to_lead(&mut self)
        ensures
            *final(self) == (TeamMember { role: TeamMemberRole::Lead, ..*old(self) }),
    {
        self.role = TeamMemberRole::Lead;
    }
}

} // verus!
