//! Records and request bodies of the platform.
use vstd::prelude::*;

verus! {

/// A user as stored, with the onboarding state the rules read.
pub struct UserRow {
    pub id: String,
    pub display_name: String,
    pub organization: String,
    pub role: String,
    pub avatar: String,
    pub description: String,
    pub verified: bool,
    pub onboarding_status: String,
    pub review_note: String,
}

/// A user as the API shows it.
pub struct User {
    pub id: String,
    pub display_name: String,
    pub organization: String,
    pub role: String,
    pub avatar: String,
    pub description: String,
    pub verified: bool,
}

/// A partner card in the plaza.
pub struct Partner {
    pub id: String,
    pub partner_type: String,
    pub avatar: String,
    pub avatar_class: String,
    pub name: String,
    pub identity: String,
    pub description: String,
    pub tags: Vec<String>,
    pub tags_json: String,
    pub match_score: i64,
    pub result_text: String,
    pub active: bool,
}

/// A promoted work.
pub struct Song {
    pub id: String,
    pub name: String,
    pub artist: String,
    pub cover_class: String,
    pub active: bool,
}

/// A promotion target channel.
pub struct TargetType {
    pub key: String,
    pub icon_class: String,
    pub title: String,
    pub description: String,
}

/// A budget bracket.
pub struct BudgetOption {
    pub id: String,
    pub label: String,
}

/// A promotion plan.
pub struct Plan {
    pub id: String,
    pub icon_class: String,
    pub color_class: String,
    pub title: String,
    pub plan_type: String,
    pub description: String,
    pub tags: Vec<String>,
    pub tags_json: String,
    pub budget_amount: i64,
    pub score: i64,
    pub active: bool,
}

/// A notice in the message centre.
pub struct Notification {
    pub id: String,
    pub kind: String,
    pub title: String,
    pub description: String,
    pub is_read: bool,
    pub created_at: String,
}

/// A conversation with a partner.
pub struct Conversation {
    pub id: String,
    pub partner_id: String,
    pub avatar: String,
    pub avatar_class: String,
    pub partner_name: String,
    pub last_message: String,
    pub unread_count: i64,
    pub updated_at: String,
}

/// A certification badge.
pub struct Certification {
    pub id: String,
    pub title: String,
    pub icon_class: String,
    pub color_class: String,
    pub status: String,
}

/// A portfolio case.
pub struct PortfolioCase {
    pub id: String,
    pub case_type: String,
    pub name: String,
    pub result_text: String,
    pub color_class: String,
}

/// Body of a session request.
pub struct CreateSession {
    pub role: Option<String>,
}

/// Body of a role change.
pub struct UpdateRole {
    pub role: String,
}

/// Body of a promotion demand.
pub struct CreateMatch {
    pub song_id: String,
    pub target_keys: Vec<String>,
    pub budget_id: String,
    pub goal: String,
    pub cycle: String,
}

/// Body of a connection request.
pub struct ConnectPartner {
    pub partner_id: String,
}

/// Body of a chat message.
pub struct SendMessage {
    pub content: String,
}

/// Body of a profile update.
pub struct UpdateProfile {
    pub organization: Option<String>,
    pub display_name: Option<String>,
    pub description: Option<String>,
    pub tags: Option<Vec<String>>,
}

/// Body of a withdrawal.
pub struct WithdrawalRequest {
    pub amount: i64,
}

/// Body of an administrator login.
pub struct AdminLogin {
    pub username: String,
    pub password: String,
}

/// Body of an administrator partner edit.
pub struct PartnerInput {
    pub partner_type: String,
    pub avatar: String,
    pub avatar_class: String,
    pub name: String,
    pub identity: String,
    pub description: String,
    pub tags: Vec<String>,
    pub match_score: i64,
    pub result_text: String,
    pub active: bool,
}

/// Body of an administrator song edit.
pub struct SongInput {
    pub name: String,
    pub artist: String,
    pub cover_class: String,
    pub active: bool,
}

/// Body of an administrator plan edit.
pub struct PlanInput {
    pub icon_class: String,
    pub color_class: String,
    pub title: String,
    pub plan_type: String,
    pub description: String,
    pub tags: Vec<String>,
    pub budget_amount: i64,
    pub score: i64,
    pub active: bool,
}

/// Body of an administrator target type edit.
pub struct TargetTypeInput {
    pub key: String,
    pub icon_class: String,
    pub title: String,
    pub description: String,
    pub sort_order: i64,
}

/// Body of an administrator budget option edit.
pub struct BudgetOptionInput {
    pub id: String,
    pub label: String,
    pub min_amount: Option<i64>,
    pub max_amount: Option<i64>,
    pub sort_order: i64,
}

/// Body of an onboarding application.
pub struct SubmitOnboarding {
    pub entity_name: String,
    pub contact_name: String,
    pub contact_method: String,
    pub description: String,
    pub tags: Vec<String>,
    pub work_title: Option<String>,
    pub work_url: Option<String>,
    pub audience_size: Option<String>,
    pub cooperation_budget: Option<String>,
}

/// Body of an onboarding review.
pub struct ReviewOnboarding {
    pub status: String,
    pub review_note: Option<String>,
}

/// A home-page banner.
pub struct Banner {
    pub id: String,
    pub image_url: String,
    pub link_url: String,
    pub title: String,
    pub subtitle: String,
    pub sort_order: i64,
    pub active: bool,
    pub start_at: Option<String>,
    pub end_at: Option<String>,
}

/// Body of a banner edit.
pub struct BannerInput {
    pub image_url: String,
    pub link_url: String,
    pub title: String,
    pub subtitle: String,
    pub sort_order: i64,
    pub active: bool,
    pub start_at: Option<String>,
    pub end_at: Option<String>,
}

/// A registered agent tool as stored; list columns hold JSON text.
pub struct AgentTool {
    pub name: String,
    pub enabled: bool,
    pub label: String,
    pub description: String,
    pub mode: String,
    pub keywords: String,
    pub blocked_keywords: String,
    pub keyword_groups: String,
    pub required_tools: String,
    pub sort_order: i64,
}

/// Body of an agent tool edit.
pub struct AgentToolInput {
    pub name: String,
    pub enabled: bool,
    pub label: String,
    pub description: String,
    pub mode: String,
    pub keywords: Vec<String>,
    pub blocked_keywords: Vec<String>,
    pub keyword_groups: Vec<Vec<String>>,
    pub required_tools: Vec<String>,
    pub sort_order: i64,
}

/// Paging of the agent session list.
pub struct SessionListParams {
    pub limit: Option<i64>,
    pub offset: Option<i64>,
}

/// An agent session in the administrator list.
pub struct AgentSessionRow {
    pub id: String,
    pub user_id: String,
    pub user_organization: Option<String>,
    pub title: String,
    pub status: String,
    pub created_at: String,
    pub updated_at: String,
}

/// One agent session.
pub struct AgentSessionDetail {
    pub id: String,
    pub user_id: String,
    pub user_organization: Option<String>,
    pub title: String,
    pub status: String,
    pub created_at: String,
    pub updated_at: String,
}

/// A message of an agent session.
pub struct AgentMessageRow {
    pub id: String,
    pub role: String,
    pub content: String,
    pub created_at: String,
}

/// A tool run of an agent session.
pub struct AgentToolCallRow {
    pub id: String,
    pub tool_name: String,
    pub label: String,
    pub status: String,
    pub result: String,
    pub created_at: String,
}

/// Body of an administrator agent test.
pub struct TestAgentInput {
    pub user_id: String,
    pub prompt: String,
}

impl From<UserRow> for User {
    fn from(row: UserRow) -> (user: Self) {
        User {
            id: row.id,
            display_name: row.display_name,
            organization: row.organization,
            role: row.role,
            avatar: row.avatar,
            description: row.description,
            verified: row.verified,
        }
    }
}

impl vstd::std_specs::convert::FromSpecImpl<UserRow> for User {
    open spec fn obeys_from_spec() -> bool {
        true
    }

    open spec fn from_spec(row: UserRow) -> Self {
        User {
            id: row.id,
            display_name: row.display_name,
            organization: row.organization,
            role: row.role,
            avatar: row.avatar,
            description: row.description,
            verified: row.verified,
        }
    }
}

} // verus!
