//! Every call the REST client makes: its method, its path below `/api`, and whether it is
//! sent with the session's token. The request bodies are serialised outside the library.
use vstd::prelude::*;
use crate::api::{activities_path, chat_path, chat_query, HttpMethod};
use crate::text::{i64_text, int_text};

verus! {

/// A call to the REST API, with the ids and numbers its path carries.
#[derive(Debug, Clone, PartialEq, Eq)]
pub enum Endpoint {
    /// `POST /auth/register`
    Register,
    /// `POST /auth/login`
    Login,
    /// `GET /auth/me`
    GetCurrentUser,
    /// `GET /households`
    ListHouseholds,
    /// `POST /households`
    CreateHousehold,
    /// `GET /households/{id}`
    GetHousehold { id: String },
    /// `DELETE /households/{id}`
    DeleteHousehold { id: String },
    /// `GET /households/{household_id}/members`
    ListMembers { household_id: String },
    /// `POST /households/{household_id}/invite`
    InviteMember { household_id: String },
    /// `GET /households/{household_id}/leaderboard`
    GetLeaderboard { household_id: String },
    /// `GET /households/{household_id}/settings`
    GetHouseholdSettings { household_id: String },
    /// `PUT /households/{household_id}/settings`
    UpdateHouseholdSettings { household_id: String },
    /// `GET /households/{household_id}/tasks`
    ListTasks { household_id: String },
    /// `GET /households/{household_id}/tasks/due`
    GetDueTasks { household_id: String },
    /// `GET /households/{household_id}/tasks/all`
    GetAllTasksWithStatus { household_id: String },
    /// `GET /households/{household_id}/tasks/assigned-to-me`
    GetMyAssignedTasks { household_id: String },
    /// `GET /households/{household_id}/tasks/{task_id}/details`
    GetTaskDetails { household_id: String, task_id: String },
    /// `POST /households/{household_id}/tasks`
    CreateTask { household_id: String },
    /// `POST /households/{household_id}/tasks/{task_id}/complete`
    CompleteTask { household_id: String, task_id: String },
    /// `POST /households/{household_id}/tasks/{task_id}/uncomplete`
    UncompleteTask { household_id: String, task_id: String },
    /// `DELETE /households/{household_id}/tasks/{task_id}`
    DeleteTask { household_id: String, task_id: String },
    /// `PUT /households/{household_id}/tasks/{task_id}`
    UpdateTask { household_id: String, task_id: String },
    /// `POST /households/{household_id}/tasks/{task_id}/archive`
    ArchiveTask { household_id: String, task_id: String },
    /// `POST /households/{household_id}/tasks/{task_id}/unarchive`
    UnarchiveTask { household_id: String, task_id: String },
    /// `POST /households/{household_id}/tasks/{task_id}/pause`
    PauseTask { household_id: String, task_id: String },
    /// `POST /households/{household_id}/tasks/{task_id}/unpause`
    UnpauseTask { household_id: String, task_id: String },
    /// `GET /households/{household_id}/tasks/archived`
    ListArchivedTasks { household_id: String },
    /// `GET /households/{household_id}/tasks/{task_id}/rewards`
    GetTaskRewards { household_id: String, task_id: String },
    /// `POST /households/{household_id}/tasks/{task_id}/rewards/{reward_id}?amount={amount}`
    AddTaskReward { household_id: String, task_id: String, reward_id: String, amount: i32 },
    /// `DELETE /households/{household_id}/tasks/{task_id}/rewards/{reward_id}`
    RemoveTaskReward { household_id: String, task_id: String, reward_id: String },
    /// `GET /households/{household_id}/tasks/{task_id}/punishments`
    GetTaskPunishments { household_id: String, task_id: String },
    /// `POST /households/{household_id}/tasks/{task_id}/punishments/{punishment_id}?amount={amount}`
    AddTaskPunishment { household_id: String, task_id: String, punishment_id: String, amount: i32 },
    /// `DELETE /households/{household_id}/tasks/{task_id}/punishments/{punishment_id}`
    RemoveTaskPunishment { household_id: String, task_id: String, punishment_id: String },
    /// `GET /households/{household_id}/categories`
    ListCategories { household_id: String },
    /// `POST /households/{household_id}/categories`
    CreateCategory { household_id: String },
    /// `PUT /households/{household_id}/categories/{category_id}`
    UpdateCategory { household_id: String, category_id: String },
    /// `DELETE /households/{household_id}/categories/{category_id}`
    DeleteCategory { household_id: String, category_id: String },
    /// `GET /households/{household_id}/tasks/pending-reviews`
    GetPendingReviews { household_id: String },
    /// `POST /households/{household_id}/tasks/completions/{completion_id}/approve`
    ApproveCompletion { household_id: String, completion_id: String },
    /// `POST /households/{household_id}/tasks/completions/{completion_id}/reject`
    RejectCompletion { household_id: String, completion_id: String },
    /// `GET /households/{household_id}/tasks/suggestions`
    ListSuggestions { household_id: String },
    /// `POST /households/{household_id}/tasks/{task_id}/approve`
    ApproveSuggestion { household_id: String, task_id: String },
    /// `POST /households/{household_id}/tasks/{task_id}/deny`
    DenySuggestion { household_id: String, task_id: String },
    /// `GET /households/{household_id}/point-conditions`
    ListPointConditions { household_id: String },
    /// `POST /households/{household_id}/point-conditions`
    CreatePointCondition { household_id: String },
    /// `DELETE /households/{household_id}/point-conditions/{condition_id}`
    DeletePointCondition { household_id: String, condition_id: String },
    /// `GET /households/{household_id}/rewards`
    ListRewards { household_id: String },
    /// `POST /households/{household_id}/rewards`
    CreateReward { household_id: String },
    /// `PUT /households/{household_id}/rewards/{reward_id}`
    UpdateReward { household_id: String, reward_id: String },
    /// `POST /households/{household_id}/rewards/{reward_id}/purchase`
    PurchaseReward { household_id: String, reward_id: String },
    /// `DELETE /households/{household_id}/rewards/{reward_id}`
    DeleteReward { household_id: String, reward_id: String },
    /// `GET /households/{household_id}/rewards/user-rewards`
    ListUserRewards { household_id: String },
    /// `GET /households/{household_id}/rewards/user-rewards/all`
    ListAllUserRewards { household_id: String },
    /// `DELETE /households/{household_id}/rewards/user-rewards/{user_reward_id}`
    DeleteUserReward { household_id: String, user_reward_id: String },
    /// `POST /households/{household_id}/rewards/user-rewards/{user_reward_id}/redeem`
    RedeemReward { household_id: String, user_reward_id: String },
    /// `GET /households/{household_id}/rewards/pending-confirmations`
    GetPendingRewardRedemptions { household_id: String },
    /// `POST /households/{household_id}/rewards/user-rewards/{user_reward_id}/approve`
    ApproveRewardRedemption { household_id: String, user_reward_id: String },
    /// `POST /households/{household_id}/rewards/user-rewards/{user_reward_id}/reject`
    RejectRewardRedemption { household_id: String, user_reward_id: String },
    /// `GET /households/{household_id}/rewards/{reward_id}/options`
    GetRewardOptions { household_id: String, reward_id: String },
    /// `POST /households/{household_id}/rewards/user-rewards/{user_reward_id}/pick`
    PickRandomReward { household_id: String, user_reward_id: String },
    /// `GET /households/{household_id}/punishments`
    ListPunishments { household_id: String },
    /// `POST /households/{household_id}/punishments`
    CreatePunishment { household_id: String },
    /// `PUT /households/{household_id}/punishments/{punishment_id}`
    UpdatePunishment { household_id: String, punishment_id: String },
    /// `DELETE /households/{household_id}/punishments/{punishment_id}`
    DeletePunishment { household_id: String, punishment_id: String },
    /// `GET /households/{household_id}/punishments/user-punishments`
    ListUserPunishments { household_id: String },
    /// `GET /households/{household_id}/punishments/user-punishments/all`
    ListAllUserPunishments { household_id: String },
    /// `DELETE /households/{household_id}/punishments/user-punishments/{user_punishment_id}`
    DeleteUserPunishment { household_id: String, user_punishment_id: String },
    /// `POST /households/{household_id}/invite`
    CreateInvitation { household_id: String },
    /// `GET /households/{household_id}/invitations`
    ListHouseholdInvitations { household_id: String },
    /// `DELETE /households/{household_id}/invitations/{invitation_id}`
    CancelInvitation { household_id: String, invitation_id: String },
    /// `GET /invitations`
    GetMyInvitations,
    /// `POST /invitations/{invitation_id}/accept`
    AcceptInvitation { invitation_id: String },
    /// `POST /invitations/{invitation_id}/decline`
    DeclineInvitation { invitation_id: String },
    /// `POST /households/{household_id}/members/{user_id}/points`
    AdjustMemberPoints { household_id: String, user_id: String },
    /// `PUT /households/{household_id}/members/{user_id}/role`
    UpdateMemberRole { household_id: String, user_id: String },
    /// `POST /households/{household_id}/rewards/{reward_id}/assign/{user_id}`
    AssignReward { household_id: String, reward_id: String, user_id: String },
    /// `POST /households/{household_id}/punishments/{punishment_id}/assign/{user_id}`
    AssignPunishment { household_id: String, punishment_id: String, user_id: String },
    /// `POST /households/{household_id}/rewards/{reward_id}/unassign/{user_id}`
    UnassignReward { household_id: String, reward_id: String, user_id: String },
    /// `POST /households/{household_id}/punishments/{punishment_id}/unassign/{user_id}`
    UnassignPunishment { household_id: String, punishment_id: String, user_id: String },
    /// `POST /households/{household_id}/punishments/user-punishments/{user_punishment_id}/complete`
    CompletePunishment { household_id: String, user_punishment_id: String },
    /// `GET /households/{household_id}/punishments/pending-confirmations`
    GetPendingPunishmentCompletions { household_id: String },
    /// `POST /households/{household_id}/punishments/user-punishments/{user_punishment_id}/approve`
    ApprovePunishmentCompletion { household_id: String, user_punishment_id: String },
    /// `POST /households/{household_id}/punishments/user-punishments/{user_punishment_id}/reject`
    RejectPunishmentCompletion { household_id: String, user_punishment_id: String },
    /// `GET /households/{household_id}/punishments/{punishment_id}/options`
    GetPunishmentOptions { household_id: String, punishment_id: String },
    /// `POST /households/{household_id}/punishments/user-punishments/{user_punishment_id}/pick`
    PickRandomPunishment { household_id: String, user_punishment_id: String },
    /// `GET /households/{household_id}/activities`
    ListActivities { household_id: String, limit: Option<i64> },
    /// `GET /households/{household_id}/chat`
    ListChatMessages { household_id: String, limit: Option<i64>, before: Option<String> },
    /// `POST /households/{household_id}/chat`
    SendChatMessage { household_id: String },
    /// `PUT /households/{household_id}/chat/{message_id}`
    UpdateChatMessage { household_id: String, message_id: String },
    /// `DELETE /households/{household_id}/chat/{message_id}`
    DeleteChatMessage { household_id: String, message_id: String },
    /// `GET /households/{household_id}/notes`
    ListNotes { household_id: String },
    /// `POST /households/{household_id}/notes`
    CreateNote { household_id: String },
    /// `GET /households/{household_id}/notes/{note_id}`
    GetNote { household_id: String, note_id: String },
    /// `PUT /households/{household_id}/notes/{note_id}`
    UpdateNote { household_id: String, note_id: String },
    /// `DELETE /households/{household_id}/notes/{note_id}`
    DeleteNote { household_id: String, note_id: String },
    /// `GET /households/{household_id}/journal`
    ListJournalEntries { household_id: String },
    /// `POST /households/{household_id}/journal`
    CreateJournalEntry { household_id: String },
    /// `GET /households/{household_id}/journal/{entry_id}`
    GetJournalEntry { household_id: String, entry_id: String },
    /// `PUT /households/{household_id}/journal/{entry_id}`
    UpdateJournalEntry { household_id: String, entry_id: String },
    /// `DELETE /households/{household_id}/journal/{entry_id}`
    DeleteJournalEntry { household_id: String, entry_id: String },
    /// `GET /households/{household_id}/announcements`
    ListAnnouncements { household_id: String },
    /// `GET /households/{household_id}/announcements/active`
    ListActiveAnnouncements { household_id: String },
    /// `POST /households/{household_id}/announcements`
    CreateAnnouncement { household_id: String },
    /// `PUT /households/{household_id}/announcements/{announcement_id}`
    UpdateAnnouncement { household_id: String, announcement_id: String },
    /// `DELETE /households/{household_id}/announcements/{announcement_id}`
    DeleteAnnouncement { household_id: String, announcement_id: String },
    /// `GET /users/me/settings`
    GetUserSettings,
    /// `PUT /users/me/settings`
    UpdateUserSettings,
    /// `GET /dashboard/tasks`
    GetDashboardTaskIds,
    /// `GET /dashboard/tasks/{task_id}`
    IsTaskOnDashboard { task_id: String },
    /// `POST /dashboard/tasks/{task_id}`
    AddTaskToDashboard { task_id: String },
    /// `DELETE /dashboard/tasks/{task_id}`
    RemoveTaskFromDashboard { task_id: String },
    /// `GET /dashboard/tasks/details`
    GetDashboardTasksWithStatus,
    /// `GET /dashboard/tasks/all`
    GetAllTasksAcrossHouseholds,
}

/// The method of each call.
pub open spec fn endpoint_method(e: Endpoint) -> HttpMethod {
    match e {
        Endpoint::GetCurrentUser
        | Endpoint::ListHouseholds
        | Endpoint::GetHousehold { .. }
        | Endpoint::ListMembers { .. }
        | Endpoint::GetLeaderboard { .. }
        | Endpoint::GetHouseholdSettings { .. }
        | Endpoint::ListTasks { .. }
        | Endpoint::GetDueTasks { .. }
        | Endpoint::GetAllTasksWithStatus { .. }
        | Endpoint::GetMyAssignedTasks { .. }
        | Endpoint::GetTaskDetails { .. }
        | Endpoint::ListArchivedTasks { .. }
        | Endpoint::GetTaskRewards { .. }
        | Endpoint::GetTaskPunishments { .. }
        | Endpoint::ListCategories { .. }
        | Endpoint::GetPendingReviews { .. }
        | Endpoint::ListSuggestions { .. }
        | Endpoint::ListPointConditions { .. }
        | Endpoint::ListRewards { .. }
        | Endpoint::ListUserRewards { .. }
        | Endpoint::ListAllUserRewards { .. }
        | Endpoint::GetPendingRewardRedemptions { .. }
        | Endpoint::GetRewardOptions { .. }
        | Endpoint::ListPunishments { .. }
        | Endpoint::ListUserPunishments { .. }
        | Endpoint::ListAllUserPunishments { .. }
        | Endpoint::ListHouseholdInvitations { .. }
        | Endpoint::GetMyInvitations
        | Endpoint::GetPendingPunishmentCompletions { .. }
        | Endpoint::GetPunishmentOptions { .. }
        | Endpoint::ListActivities { .. }
        | Endpoint::ListChatMessages { .. }
        | Endpoint::ListNotes { .. }
        | Endpoint::GetNote { .. }
        | Endpoint::ListJournalEntries { .. }
        | Endpoint::GetJournalEntry { .. }
        | Endpoint::ListAnnouncements { .. }
        | Endpoint::ListActiveAnnouncements { .. }
        | Endpoint::GetUserSettings
        | Endpoint::GetDashboardTaskIds
        | Endpoint::IsTaskOnDashboard { .. }
        | Endpoint::GetDashboardTasksWithStatus
        | Endpoint::GetAllTasksAcrossHouseholds => HttpMethod::Get,
        Endpoint::Register
        | Endpoint::Login
        | Endpoint::CreateHousehold
        | Endpoint::InviteMember { .. }
        | Endpoint::CreateTask { .. }
        | Endpoint::CompleteTask { .. }
        | Endpoint::UncompleteTask { .. }
        | Endpoint::ArchiveTask { .. }
        | Endpoint::UnarchiveTask { .. }
        | Endpoint::PauseTask { .. }
        | Endpoint::UnpauseTask { .. }
        | Endpoint::AddTaskReward { .. }
        | Endpoint::AddTaskPunishment { .. }
        | Endpoint::CreateCategory { .. }
        | Endpoint::ApproveCompletion { .. }
        | Endpoint::RejectCompletion { .. }
        | Endpoint::ApproveSuggestion { .. }
        | Endpoint::DenySuggestion { .. }
        | Endpoint::CreatePointCondition { .. }
        | Endpoint::CreateReward { .. }
        | Endpoint::PurchaseReward { .. }
        | Endpoint::RedeemReward { .. }
        | Endpoint::ApproveRewardRedemption { .. }
        | Endpoint::RejectRewardRedemption { .. }
        | Endpoint::PickRandomReward { .. }
        | Endpoint::CreatePunishment { .. }
        | Endpoint::CreateInvitation { .. }
        | Endpoint::AcceptInvitation { .. }
        | Endpoint::DeclineInvitation { .. }
        | Endpoint::AdjustMemberPoints { .. }
        | Endpoint::AssignReward { .. }
        | Endpoint::AssignPunishment { .. }
        | Endpoint::UnassignReward { .. }
        | Endpoint::UnassignPunishment { .. }
        | Endpoint::CompletePunishment { .. }
        | Endpoint::ApprovePunishmentCompletion { .. }
        | Endpoint::RejectPunishmentCompletion { .. }
        | Endpoint::PickRandomPunishment { .. }
        | Endpoint::SendChatMessage { .. }
        | Endpoint::CreateNote { .. }
        | Endpoint::CreateJournalEntry { .. }
        | Endpoint::CreateAnnouncement { .. }
        | Endpoint::AddTaskToDashboard { .. } => HttpMethod::Post,
        Endpoint::UpdateHouseholdSettings { .. }
        | Endpoint::UpdateTask { .. }
        | Endpoint::UpdateCategory { .. }
        | Endpoint::UpdateReward { .. }
        | Endpoint::UpdatePunishment { .. }
        | Endpoint::UpdateMemberRole { .. }
        | Endpoint::UpdateChatMessage { .. }
        | Endpoint::UpdateNote { .. }
        | Endpoint::UpdateJournalEntry { .. }
        | Endpoint::UpdateAnnouncement { .. }
        | Endpoint::UpdateUserSettings => HttpMethod::Put,
        Endpoint::DeleteHousehold { .. }
        | Endpoint::DeleteTask { .. }
        | Endpoint::RemoveTaskReward { .. }
        | Endpoint::RemoveTaskPunishment { .. }
        | Endpoint::DeleteCategory { .. }
        | Endpoint::DeletePointCondition { .. }
        | Endpoint::DeleteReward { .. }
        | Endpoint::DeleteUserReward { .. }
        | Endpoint::DeletePunishment { .. }
        | Endpoint::DeleteUserPunishment { .. }
        | Endpoint::CancelInvitation { .. }
        | Endpoint::DeleteChatMessage { .. }
        | Endpoint::DeleteNote { .. }
        | Endpoint::DeleteJournalEntry { .. }
        | Endpoint::DeleteAnnouncement { .. }
        | Endpoint::RemoveTaskFromDashboard { .. } => HttpMethod::Delete,
    }
}

/// Whether a call is sent with the session's token: all but registering and logging in.
pub open spec fn endpoint_auth(e: Endpoint) -> bool {
    match e {
        Endpoint::Register
        | Endpoint::Login => false,
        _ => true,
    }
}

/// The path of each call below `/api`.
pub open spec fn endpoint_path(e: Endpoint) -> Seq<char> {
    match e {
        Endpoint::Register => "/auth/register"@,
        Endpoint::Login => "/auth/login"@,
        Endpoint::GetCurrentUser => "/auth/me"@,
        Endpoint::ListHouseholds => "/households"@,
        Endpoint::CreateHousehold => "/households"@,
        Endpoint::GetHousehold { id } => "/households/"@ + id@,
        Endpoint::DeleteHousehold { id } => "/households/"@ + id@,
        Endpoint::ListMembers { household_id } => "/households/"@ + household_id@ + "/members"@,
        Endpoint::InviteMember { household_id } => "/households/"@ + household_id@ + "/invite"@,
        Endpoint::GetLeaderboard { household_id } => "/households/"@ + household_id@ + "/leaderboard"@,
        Endpoint::GetHouseholdSettings { household_id } => "/households/"@ + household_id@ + "/settings"@,
        Endpoint::UpdateHouseholdSettings { household_id } => "/households/"@ + household_id@ + "/settings"@,
        Endpoint::ListTasks { household_id } => "/households/"@ + household_id@ + "/tasks"@,
        Endpoint::GetDueTasks { household_id } => "/households/"@ + household_id@ + "/tasks/due"@,
        Endpoint::GetAllTasksWithStatus { household_id } => "/households/"@ + household_id@ + "/tasks/all"@,
        Endpoint::GetMyAssignedTasks { household_id } => "/households/"@ + household_id@ + "/tasks/assigned-to-me"@,
        Endpoint::GetTaskDetails { household_id, task_id } => "/households/"@ + household_id@ + "/tasks/"@ + task_id@ + "/details"@,
        Endpoint::CreateTask { household_id } => "/households/"@ + household_id@ + "/tasks"@,
        Endpoint::CompleteTask { household_id, task_id } => "/households/"@ + household_id@ + "/tasks/"@ + task_id@ + "/complete"@,
        Endpoint::UncompleteTask { household_id, task_id } => "/households/"@ + household_id@ + "/tasks/"@ + task_id@ + "/uncomplete"@,
        Endpoint::DeleteTask { household_id, task_id } => "/households/"@ + household_id@ + "/tasks/"@ + task_id@,
        Endpoint::UpdateTask { household_id, task_id } => "/households/"@ + household_id@ + "/tasks/"@ + task_id@,
        Endpoint::ArchiveTask { household_id, task_id } => "/households/"@ + household_id@ + "/tasks/"@ + task_id@ + "/archive"@,
        Endpoint::UnarchiveTask { household_id, task_id } => "/households/"@ + household_id@ + "/tasks/"@ + task_id@ + "/unarchive"@,
        Endpoint::PauseTask { household_id, task_id } => "/households/"@ + household_id@ + "/tasks/"@ + task_id@ + "/pause"@,
        Endpoint::UnpauseTask { household_id, task_id } => "/households/"@ + household_id@ + "/tasks/"@ + task_id@ + "/unpause"@,
        Endpoint::ListArchivedTasks { household_id } => "/households/"@ + household_id@ + "/tasks/archived"@,
        Endpoint::GetTaskRewards { household_id, task_id } => "/households/"@ + household_id@ + "/tasks/"@ + task_id@ + "/rewards"@,
        Endpoint::AddTaskReward { household_id, task_id, reward_id, amount } => "/households/"@ + household_id@ + "/tasks/"@ + task_id@ + "/rewards/"@ + reward_id@ + "?amount="@ + int_text(amount as int),
        Endpoint::RemoveTaskReward { household_id, task_id, reward_id } => "/households/"@ + household_id@ + "/tasks/"@ + task_id@ + "/rewards/"@ + reward_id@,
        Endpoint::GetTaskPunishments { household_id, task_id } => "/households/"@ + household_id@ + "/tasks/"@ + task_id@ + "/punishments"@,
        Endpoint::AddTaskPunishment { household_id, task_id, punishment_id, amount } => "/households/"@ + household_id@ + "/tasks/"@ + task_id@ + "/punishments/"@ + punishment_id@ + "?amount="@ + int_text(amount as int),
        Endpoint::RemoveTaskPunishment { household_id, task_id, punishment_id } => "/households/"@ + household_id@ + "/tasks/"@ + task_id@ + "/punishments/"@ + punishment_id@,
        Endpoint::ListCategories { household_id } => "/households/"@ + household_id@ + "/categories"@,
        Endpoint::CreateCategory { household_id } => "/households/"@ + household_id@ + "/categories"@,
        Endpoint::UpdateCategory { household_id, category_id } => "/households/"@ + household_id@ + "/categories/"@ + category_id@,
        Endpoint::DeleteCategory { household_id, category_id } => "/households/"@ + household_id@ + "/categories/"@ + category_id@,
        Endpoint::GetPendingReviews { household_id } => "/households/"@ + household_id@ + "/tasks/pending-reviews"@,
        Endpoint::ApproveCompletion { household_id, completion_id } => "/households/"@ + household_id@ + "/tasks/completions/"@ + completion_id@ + "/approve"@,
        Endpoint::RejectCompletion { household_id, completion_id } => "/households/"@ + household_id@ + "/tasks/completions/"@ + completion_id@ + "/reject"@,
        Endpoint::ListSuggestions { household_id } => "/households/"@ + household_id@ + "/tasks/suggestions"@,
        Endpoint::ApproveSuggestion { household_id, task_id } => "/households/"@ + household_id@ + "/tasks/"@ + task_id@ + "/approve"@,
        Endpoint::DenySuggestion { household_id, task_id } => "/households/"@ + household_id@ + "/tasks/"@ + task_id@ + "/deny"@,
        Endpoint::ListPointConditions { household_id } => "/households/"@ + household_id@ + "/point-conditions"@,
        Endpoint::CreatePointCondition { household_id } => "/households/"@ + household_id@ + "/point-conditions"@,
        Endpoint::DeletePointCondition { household_id, condition_id } => "/households/"@ + household_id@ + "/point-conditions/"@ + condition_id@,
        Endpoint::ListRewards { household_id } => "/households/"@ + household_id@ + "/rewards"@,
        Endpoint::CreateReward { household_id } => "/households/"@ + household_id@ + "/rewards"@,
        Endpoint::UpdateReward { household_id, reward_id } => "/households/"@ + household_id@ + "/rewards/"@ + reward_id@,
        Endpoint::PurchaseReward { household_id, reward_id } => "/households/"@ + household_id@ + "/rewards/"@ + reward_id@ + "/purchase"@,
        Endpoint::DeleteReward { household_id, reward_id } => "/households/"@ + household_id@ + "/rewards/"@ + reward_id@,
        Endpoint::ListUserRewards { household_id } => "/households/"@ + household_id@ + "/rewards/user-rewards"@,
        Endpoint::ListAllUserRewards { household_id } => "/households/"@ + household_id@ + "/rewards/user-rewards/all"@,
        Endpoint::DeleteUserReward { household_id, user_reward_id } => "/households/"@ + household_id@ + "/rewards/user-rewards/"@ + user_reward_id@,
        Endpoint::RedeemReward { household_id, user_reward_id } => "/households/"@ + household_id@ + "/rewards/user-rewards/"@ + user_reward_id@ + "/redeem"@,
        Endpoint::GetPendingRewardRedemptions { household_id } => "/households/"@ + household_id@ + "/rewards/pending-confirmations"@,
        Endpoint::ApproveRewardRedemption { household_id, user_reward_id } => "/households/"@ + household_id@ + "/rewards/user-rewards/"@ + user_reward_id@ + "/approve"@,
        Endpoint::RejectRewardRedemption { household_id, user_reward_id } => "/households/"@ + household_id@ + "/rewards/user-rewards/"@ + user_reward_id@ + "/reject"@,
        Endpoint::GetRewardOptions { household_id, reward_id } => "/households/"@ + household_id@ + "/rewards/"@ + reward_id@ + "/options"@,
        Endpoint::PickRandomReward { household_id, user_reward_id } => "/households/"@ + household_id@ + "/rewards/user-rewards/"@ + user_reward_id@ + "/pick"@,
        Endpoint::ListPunishments { household_id } => "/households/"@ + household_id@ + "/punishments"@,
        Endpoint::CreatePunishment { household_id } => "/households/"@ + household_id@ + "/punishments"@,
        Endpoint::UpdatePunishment { household_id, punishment_id } => "/households/"@ + household_id@ + "/punishments/"@ + punishment_id@,
        Endpoint::DeletePunishment { household_id, punishment_id } => "/households/"@ + household_id@ + "/punishments/"@ + punishment_id@,
        Endpoint::ListUserPunishments { household_id } => "/households/"@ + household_id@ + "/punishments/user-punishments"@,
        Endpoint::ListAllUserPunishments { household_id } => "/households/"@ + household_id@ + "/punishments/user-punishments/all"@,
        Endpoint::DeleteUserPunishment { household_id, user_punishment_id } => "/households/"@ + household_id@ + "/punishments/user-punishments/"@ + user_punishment_id@,
        Endpoint::CreateInvitation { household_id } => "/households/"@ + household_id@ + "/invite"@,
        Endpoint::ListHouseholdInvitations { household_id } => "/households/"@ + household_id@ + "/invitations"@,
        Endpoint::CancelInvitation { household_id, invitation_id } => "/households/"@ + household_id@ + "/invitations/"@ + invitation_id@,
        Endpoint::GetMyInvitations => "/invitations"@,
        Endpoint::AcceptInvitation { invitation_id } => "/invitations/"@ + invitation_id@ + "/accept"@,
        Endpoint::DeclineInvitation { invitation_id } => "/invitations/"@ + invitation_id@ + "/decline"@,
        Endpoint::AdjustMemberPoints { household_id, user_id } => "/households/"@ + household_id@ + "/members/"@ + user_id@ + "/points"@,
        Endpoint::UpdateMemberRole { household_id, user_id } => "/households/"@ + household_id@ + "/members/"@ + user_id@ + "/role"@,
        Endpoint::AssignReward { household_id, reward_id, user_id } => "/households/"@ + household_id@ + "/rewards/"@ + reward_id@ + "/assign/"@ + user_id@,
        Endpoint::AssignPunishment { household_id, punishment_id, user_id } => "/households/"@ + household_id@ + "/punishments/"@ + punishment_id@ + "/assign/"@ + user_id@,
        Endpoint::UnassignReward { household_id, reward_id, user_id } => "/households/"@ + household_id@ + "/rewards/"@ + reward_id@ + "/unassign/"@ + user_id@,
        Endpoint::UnassignPunishment { household_id, punishment_id, user_id } => "/households/"@ + household_id@ + "/punishments/"@ + punishment_id@ + "/unassign/"@ + user_id@,
        Endpoint::CompletePunishment { household_id, user_punishment_id } => "/households/"@ + household_id@ + "/punishments/user-punishments/"@ + user_punishment_id@ + "/complete"@,
        Endpoint::GetPendingPunishmentCompletions { household_id } => "/households/"@ + household_id@ + "/punishments/pending-confirmations"@,
        Endpoint::ApprovePunishmentCompletion { household_id, user_punishment_id } => "/households/"@ + household_id@ + "/punishments/user-punishments/"@ + user_punishment_id@ + "/approve"@,
        Endpoint::RejectPunishmentCompletion { household_id, user_punishment_id } => "/households/"@ + household_id@ + "/punishments/user-punishments/"@ + user_punishment_id@ + "/reject"@,
        Endpoint::GetPunishmentOptions { household_id, punishment_id } => "/households/"@ + household_id@ + "/punishments/"@ + punishment_id@ + "/options"@,
        Endpoint::PickRandomPunishment { household_id, user_punishment_id } => "/households/"@ + household_id@ + "/punishments/user-punishments/"@ + user_punishment_id@ + "/pick"@,
        Endpoint::ListActivities { household_id, limit } => "/households/"@ + household_id@ + "/activities"@ + match limit {
            Some(n) => "?limit="@ + int_text(n as int),
            None => Seq::<char>::empty(),
        },
        Endpoint::ListChatMessages { household_id, limit, before } => "/households/"@ + household_id@ + "/chat"@ + chat_query(
            limit,
            match before {
                Some(b) => Some(b@),
                None => None,
            },
        ),
        Endpoint::SendChatMessage { household_id } => "/households/"@ + household_id@ + "/chat"@,
        Endpoint::UpdateChatMessage { household_id, message_id } => "/households/"@ + household_id@ + "/chat/"@ + message_id@,
        Endpoint::DeleteChatMessage { household_id, message_id } => "/households/"@ + household_id@ + "/chat/"@ + message_id@,
        Endpoint::ListNotes { household_id } => "/households/"@ + household_id@ + "/notes"@,
        Endpoint::CreateNote { household_id } => "/households/"@ + household_id@ + "/notes"@,
        Endpoint::GetNote { household_id, note_id } => "/households/"@ + household_id@ + "/notes/"@ + note_id@,
        Endpoint::UpdateNote { household_id, note_id } => "/households/"@ + household_id@ + "/notes/"@ + note_id@,
        Endpoint::DeleteNote { household_id, note_id } => "/households/"@ + household_id@ + "/notes/"@ + note_id@,
        Endpoint::ListJournalEntries { household_id } => "/households/"@ + household_id@ + "/journal"@,
        Endpoint::CreateJournalEntry { household_id } => "/households/"@ + household_id@ + "/journal"@,
        Endpoint::GetJournalEntry { household_id, entry_id } => "/households/"@ + household_id@ + "/journal/"@ + entry_id@,
        Endpoint::UpdateJournalEntry { household_id, entry_id } => "/households/"@ + household_id@ + "/journal/"@ + entry_id@,
        Endpoint::DeleteJournalEntry { household_id, entry_id } => "/households/"@ + household_id@ + "/journal/"@ + entry_id@,
        Endpoint::ListAnnouncements { household_id } => "/households/"@ + household_id@ + "/announcements"@,
        Endpoint::ListActiveAnnouncements { household_id } => "/households/"@ + household_id@ + "/announcements/active"@,
        Endpoint::CreateAnnouncement { household_id } => "/households/"@ + household_id@ + "/announcements"@,
        Endpoint::UpdateAnnouncement { household_id, announcement_id } => "/households/"@ + household_id@ + "/announcements/"@ + announcement_id@,
        Endpoint::DeleteAnnouncement { household_id, announcement_id } => "/households/"@ + household_id@ + "/announcements/"@ + announcement_id@,
        Endpoint::GetUserSettings => "/users/me/settings"@,
        Endpoint::UpdateUserSettings => "/users/me/settings"@,
        Endpoint::GetDashboardTaskIds => "/dashboard/tasks"@,
        Endpoint::IsTaskOnDashboard { task_id } => "/dashboard/tasks/"@ + task_id@,
        Endpoint::AddTaskToDashboard { task_id } => "/dashboard/tasks/"@ + task_id@,
        Endpoint::RemoveTaskFromDashboard { task_id } => "/dashboard/tasks/"@ + task_id@,
        Endpoint::GetDashboardTasksWithStatus => "/dashboard/tasks/details"@,
        Endpoint::GetAllTasksAcrossHouseholds => "/dashboard/tasks/all"@,
    }
}

impl Endpoint {
    /// The call's method.
    pub fn method(&self) -> (m: HttpMethod)
        ensures
            m == endpoint_method(*self),
    {
        match self {
            Endpoint::GetCurrentUser
        | Endpoint::ListHouseholds
        | Endpoint::GetHousehold { .. }
        | Endpoint::ListMembers { .. }
        | Endpoint::GetLeaderboard { .. }
        | Endpoint::GetHouseholdSettings { .. }
        | Endpoint::ListTasks { .. }
        | Endpoint::GetDueTasks { .. }
        | Endpoint::GetAllTasksWithStatus { .. }
        | Endpoint::GetMyAssignedTasks { .. }
        | Endpoint::GetTaskDetails { .. }
        | Endpoint::ListArchivedTasks { .. }
        | Endpoint::GetTaskRewards { .. }
        | Endpoint::GetTaskPunishments { .. }
        | Endpoint::ListCategories { .. }
        | Endpoint::GetPendingReviews { .. }
        | Endpoint::ListSuggestions { .. }
        | Endpoint::ListPointConditions { .. }
        | Endpoint::ListRewards { .. }
        | Endpoint::ListUserRewards { .. }
        | Endpoint::ListAllUserRewards { .. }
        | Endpoint::GetPendingRewardRedemptions { .. }
        | Endpoint::GetRewardOptions { .. }
        | Endpoint::ListPunishments { .. }
        | Endpoint::ListUserPunishments { .. }
        | Endpoint::ListAllUserPunishments { .. }
        | Endpoint::ListHouseholdInvitations { .. }
        | Endpoint::GetMyInvitations
        | Endpoint::GetPendingPunishmentCompletions { .. }
        | Endpoint::GetPunishmentOptions { .. }
        | Endpoint::ListActivities { .. }
        | Endpoint::ListChatMessages { .. }
        | Endpoint::ListNotes { .. }
        | Endpoint::GetNote { .. }
        | Endpoint::ListJournalEntries { .. }
        | Endpoint::GetJournalEntry { .. }
        | Endpoint::ListAnnouncements { .. }
        | Endpoint::ListActiveAnnouncements { .. }
        | Endpoint::GetUserSettings
        | Endpoint::GetDashboardTaskIds
        | Endpoint::IsTaskOnDashboard { .. }
        | Endpoint::GetDashboardTasksWithStatus
        | Endpoint::GetAllTasksAcrossHouseholds => HttpMethod::Get,
            Endpoint::Register
        | Endpoint::Login
        | Endpoint::CreateHousehold
        | Endpoint::InviteMember { .. }
        | Endpoint::CreateTask { .. }
        | Endpoint::CompleteTask { .. }
        | Endpoint::UncompleteTask { .. }
        | Endpoint::ArchiveTask { .. }
        | Endpoint::UnarchiveTask { .. }
        | Endpoint::PauseTask { .. }
        | Endpoint::UnpauseTask { .. }
        | Endpoint::AddTaskReward { .. }
        | Endpoint::AddTaskPunishment { .. }
        | Endpoint::CreateCategory { .. }
        | Endpoint::ApproveCompletion { .. }
        | Endpoint::RejectCompletion { .. }
        | Endpoint::ApproveSuggestion { .. }
        | Endpoint::DenySuggestion { .. }
        | Endpoint::CreatePointCondition { .. }
        | Endpoint::CreateReward { .. }
        | Endpoint::PurchaseReward { .. }
        | Endpoint::RedeemReward { .. }
        | Endpoint::ApproveRewardRedemption { .. }
        | Endpoint::RejectRewardRedemption { .. }
        | Endpoint::PickRandomReward { .. }
        | Endpoint::CreatePunishment { .. }
        | Endpoint::CreateInvitation { .. }
        | Endpoint::AcceptInvitation { .. }
        | Endpoint::DeclineInvitation { .. }
        | Endpoint::AdjustMemberPoints { .. }
        | Endpoint::AssignReward { .. }
        | Endpoint::AssignPunishment { .. }
        | Endpoint::UnassignReward { .. }
        | Endpoint::UnassignPunishment { .. }
        | Endpoint::CompletePunishment { .. }
        | Endpoint::ApprovePunishmentCompletion { .. }
        | Endpoint::RejectPunishmentCompletion { .. }
        | Endpoint::PickRandomPunishment { .. }
        | Endpoint::SendChatMessage { .. }
        | Endpoint::CreateNote { .. }
        | Endpoint::CreateJournalEntry { .. }
        | Endpoint::CreateAnnouncement { .. }
        | Endpoint::AddTaskToDashboard { .. } => HttpMethod::Post,
            Endpoint::UpdateHouseholdSettings { .. }
        | Endpoint::UpdateTask { .. }
        | Endpoint::UpdateCategory { .. }
        | Endpoint::UpdateReward { .. }
        | Endpoint::UpdatePunishment { .. }
        | Endpoint::UpdateMemberRole { .. }
        | Endpoint::UpdateChatMessage { .. }
        | Endpoint::UpdateNote { .. }
        | Endpoint::UpdateJournalEntry { .. }
        | Endpoint::UpdateAnnouncement { .. }
        | Endpoint::UpdateUserSettings => HttpMethod::Put,
            Endpoint::DeleteHousehold { .. }
        | Endpoint::DeleteTask { .. }
        | Endpoint::RemoveTaskReward { .. }
        | Endpoint::RemoveTaskPunishment { .. }
        | Endpoint::DeleteCategory { .. }
        | Endpoint::DeletePointCondition { .. }
        | Endpoint::DeleteReward { .. }
        | Endpoint::DeleteUserReward { .. }
        | Endpoint::DeletePunishment { .. }
        | Endpoint::DeleteUserPunishment { .. }
        | Endpoint::CancelInvitation { .. }
        | Endpoint::DeleteChatMessage { .. }
        | Endpoint::DeleteNote { .. }
        | Endpoint::DeleteJournalEntry { .. }
        | Endpoint::DeleteAnnouncement { .. }
        | Endpoint::RemoveTaskFromDashboard { .. } => HttpMethod::Delete,
        }
    }

    /// Whether the call is sent with the session's token.
    pub fn auth(&self) -> (a: bool)
        ensures
            a == endpoint_auth(*self),
    {
        match self {
            Endpoint::Register
        | Endpoint::Login => false,
            _ => true,
        }
    }

    /// The call's path below `/api`.
    pub fn path(&self) -> (p: String)
        ensures
            p@ == endpoint_path(*self),
    {
        match self {
            Endpoint::Register => String::from_str("/auth/register"),
            Endpoint::Login => String::from_str("/auth/login"),
            Endpoint::GetCurrentUser => String::from_str("/auth/me"),
            Endpoint::ListHouseholds => String::from_str("/households"),
            Endpoint::CreateHousehold => String::from_str("/households"),
            Endpoint::GetHousehold { id } => {
                let mut p = String::from_str("/households/");
                p.append(id.as_str());
                p
            },
            Endpoint::DeleteHousehold { id } => {
                let mut p = String::from_str("/households/");
                p.append(id.as_str());
                p
            },
            Endpoint::ListMembers { household_id } => {
                let mut p = String::from_str("/households/");
                p.append(household_id.as_str());
                p.append("/members");
                p
            },
            Endpoint::InviteMember { household_id } => {
                let mut p = String::from_str("/households/");
                p.append(household_id.as_str());
                p.append("/invite");
                p
            },
            Endpoint::GetLeaderboard { household_id } => {
                let mut p = String::from_str("/households/");
                p.append(household_id.as_str());
                p.append("/leaderboard");
                p
            },
            Endpoint::GetHouseholdSettings { household_id } => {
                let mut p = String::from_str("/households/");
                p.append(household_id.as_str());
                p.append("/settings");
                p
            },
            Endpoint::UpdateHouseholdSettings { household_id } => {
                let mut p = String::from_str("/households/");
                p.append(household_id.as_str());
                p.append("/settings");
                p
            },
            Endpoint::ListTasks { household_id } => {
                let mut p = String::from_str("/households/");
                p.append(household_id.as_str());
                p.append("/tasks");
                p
            },
            Endpoint::GetDueTasks { household_id } => {
                let mut p = String::from_str("/households/");
                p.append(household_id.as_str());
                p.append("/tasks/due");
                p
            },
            Endpoint::GetAllTasksWithStatus { household_id } => {
                let mut p = String::from_str("/households/");
                p.append(household_id.as_str());
                p.append("/tasks/all");
                p
            },
            Endpoint::GetMyAssignedTasks { household_id } => {
                let mut p = String::from_str("/households/");
                p.append(household_id.as_str());
                p.append("/tasks/assigned-to-me");
                p
            },
            Endpoint::GetTaskDetails { household_id, task_id } => {
                let mut p = String::from_str("/households/");
                p.append(household_id.as_str());
                p.append("/tasks/");
                p.append(task_id.as_str());
                p.append("/details");
                p
            },
            Endpoint::CreateTask { household_id } => {
                let mut p = String::from_str("/households/");
                p.append(household_id.as_str());
                p.append("/tasks");
                p
            },
            Endpoint::CompleteTask { household_id, task_id } => {
                let mut p = String::from_str("/households/");
                p.append(household_id.as_str());
                p.append("/tasks/");
                p.append(task_id.as_str());
                p.append("/complete");
                p
            },
            Endpoint::UncompleteTask { household_id, task_id } => {
                let mut p = String::from_str("/households/");
                p.append(household_id.as_str());
                p.append("/tasks/");
                p.append(task_id.as_str());
                p.append("/uncomplete");
                p
            },
            Endpoint::DeleteTask { household_id, task_id } => {
                let mut p = String::from_str("/households/");
                p.append(household_id.as_str());
                p.append("/tasks/");
                p.append(task_id.as_str());
                p
            },
            Endpoint::UpdateTask { household_id, task_id } => {
                let mut p = String::from_str("/households/");
                p.append(household_id.as_str());
                p.append("/tasks/");
                p.append(task_id.as_str());
                p
            },
            Endpoint::ArchiveTask { household_id, task_id } => {
                let mut p = String::from_str("/households/");
                p.append(household_id.as_str());
                p.append("/tasks/");
                p.append(task_id.as_str());
                p.append("/archive");
                p
            },
            Endpoint::UnarchiveTask { household_id, task_id } => {
                let mut p = String::from_str("/households/");
                p.append(household_id.as_str());
                p.append("/tasks/");
                p.append(task_id.as_str());
                p.append("/unarchive");
                p
            },
            Endpoint::PauseTask { household_id, task_id } => {
                let mut p = String::from_str("/households/");
                p.append(household_id.as_str());
                p.append("/tasks/");
                p.append(task_id.as_str());
                p.append("/pause");
                p
            },
            Endpoint::UnpauseTask { household_id, task_id } => {
                let mut p = String::from_str("/households/");
                p.append(household_id.as_str());
                p.append("/tasks/");
                p.append(task_id.as_str());
                p.append("/unpause");
                p
            },
            Endpoint::ListArchivedTasks { household_id } => {
                let mut p = String::from_str("/households/");
                p.append(household_id.as_str());
                p.append("/tasks/archived");
                p
            },
            Endpoint::GetTaskRewards { household_id, task_id } => {
                let mut p = String::from_str("/households/");
                p.append(household_id.as_str());
                p.append("/tasks/");
                p.append(task_id.as_str());
                p.append("/rewards");
                p
            },
            Endpoint::AddTaskReward { household_id, task_id, reward_id, amount } => {
                let mut p = String::from_str("/households/");
                p.append(household_id.as_str());
                p.append("/tasks/");
                p.append(task_id.as_str());
                p.append("/rewards/");
                p.append(reward_id.as_str());
                p.append("?amount=");
                let n = i64_text(*amount as i64);
                p.append(n.as_str());
                p
            },
            Endpoint::RemoveTaskReward { household_id, task_id, reward_id } => {
                let mut p = String::from_str("/households/");
                p.append(household_id.as_str());
                p.append("/tasks/");
                p.append(task_id.as_str());
                p.append("/rewards/");
                p.append(reward_id.as_str());
                p
            },
            Endpoint::GetTaskPunishments { household_id, task_id } => {
                let mut p = String::from_str("/households/");
                p.append(household_id.as_str());
                p.append("/tasks/");
                p.append(task_id.as_str());
                p.append("/punishments");
                p
            },
            Endpoint::AddTaskPunishment { household_id, task_id, punishment_id, amount } => {
                let mut p = String::from_str("/households/");
                p.append(household_id.as_str());
                p.append("/tasks/");
                p.append(task_id.as_str());
                p.append("/punishments/");
                p.append(punishment_id.as_str());
                p.append("?amount=");
                let n = i64_text(*amount as i64);
                p.append(n.as_str());
                p
            },
            Endpoint::RemoveTaskPunishment { household_id, task_id, punishment_id } => {
                let mut p = String::from_str("/households/");
                p.append(household_id.as_str());
                p.append("/tasks/");
                p.append(task_id.as_str());
                p.append("/punishments/");
                p.append(punishment_id.as_str());
                p
            },
            Endpoint::ListCategories { household_id } => {
                let mut p = String::from_str("/households/");
                p.append(household_id.as_str());
                p.append("/categories");
                p
            },
            Endpoint::CreateCategory { household_id } => {
                let mut p = String::from_str("/households/");
                p.append(household_id.as_str());
                p.append("/categories");
                p
            },
            Endpoint::UpdateCategory { household_id, category_id } => {
                let mut p = String::from_str("/households/");
                p.append(household_id.as_str());
                p.append("/categories/");
                p.append(category_id.as_str());
                p
            },
            Endpoint::DeleteCategory { household_id, category_id } => {
                let mut p = String::from_str("/households/");
                p.append(household_id.as_str());
                p.append("/categories/");
                p.append(category_id.as_str());
                p
            },
            Endpoint::GetPendingReviews { household_id } => {
                let mut p = String::from_str("/households/");
                p.append(household_id.as_str());
                p.append("/tasks/pending-reviews");
                p
            },
            Endpoint::ApproveCompletion { household_id, completion_id } => {
                let mut p = String::from_str("/households/");
                p.append(household_id.as_str());
                p.append("/tasks/completions/");
                p.append(completion_id.as_str());
                p.append("/approve");
                p
            },
            Endpoint::RejectCompletion { household_id, completion_id } => {
                let mut p = String::from_str("/households/");
                p.append(household_id.as_str());
                p.append("/tasks/completions/");
                p.append(completion_id.as_str());
                p.append("/reject");
                p
            },
            Endpoint::ListSuggestions { household_id } => {
                let mut p = String::from_str("/households/");
                p.append(household_id.as_str());
                p.append("/tasks/suggestions");
                p
            },
            Endpoint::ApproveSuggestion { household_id, task_id } => {
                let mut p = String::from_str("/households/");
                p.append(household_id.as_str());
                p.append("/tasks/");
                p.append(task_id.as_str());
                p.append("/approve");
                p
            },
            Endpoint::DenySuggestion { household_id, task_id } => {
                let mut p = String::from_str("/households/");
                p.append(household_id.as_str());
                p.append("/tasks/");
                p.append(task_id.as_str());
                p.append("/deny");
                p
            },
            Endpoint::ListPointConditions { household_id } => {
                let mut p = String::from_str("/households/");
                p.append(household_id.as_str());
                p.append("/point-conditions");
                p
            },
            Endpoint::CreatePointCondition { household_id } => {
                let mut p = String::from_str("/households/");
                p.append(household_id.as_str());
                p.append("/point-conditions");
                p
            },
            Endpoint::DeletePointCondition { household_id, condition_id } => {
                let mut p = String::from_str("/households/");
                p.append(household_id.as_str());
                p.append("/point-conditions/");
                p.append(condition_id.as_str());
                p
            },
            Endpoint::ListRewards { household_id } => {
                let mut p = String::from_str("/households/");
                p.append(household_id.as_str());
                p.append("/rewards");
                p
            },
            Endpoint::CreateReward { household_id } => {
                let mut p = String::from_str("/households/");
                p.append(household_id.as_str());
                p.append("/rewards");
                p
            },
            Endpoint::UpdateReward { household_id, reward_id } => {
                let mut p = String::from_str("/households/");
                p.append(household_id.as_str());
                p.append("/rewards/");
                p.append(reward_id.as_str());
                p
            },
            Endpoint::PurchaseReward { household_id, reward_id } => {
                let mut p = String::from_str("/households/");
                p.append(household_id.as_str());
                p.append("/rewards/");
                p.append(reward_id.as_str());
                p.append("/purchase");
                p
            },
            Endpoint::DeleteReward { household_id, reward_id } => {
                let mut p = String::from_str("/households/");
                p.append(household_id.as_str());
                p.append("/rewards/");
                p.append(reward_id.as_str());
                p
            },
            Endpoint::ListUserRewards { household_id } => {
                let mut p = String::from_str("/households/");
                p.append(household_id.as_str());
                p.append("/rewards/user-rewards");
                p
            },
            Endpoint::ListAllUserRewards { household_id } => {
                let mut p = String::from_str("/households/");
                p.append(household_id.as_str());
                p.append("/rewards/user-rewards/all");
                p
            },
            Endpoint::DeleteUserReward { household_id, user_reward_id } => {
                let mut p = String::from_str("/households/");
                p.append(household_id.as_str());
                p.append("/rewards/user-rewards/");
                p.append(user_reward_id.as_str());
                p
            },
            Endpoint::RedeemReward { household_id, user_reward_id } => {
                let mut p = String::from_str("/households/");
                p.append(household_id.as_str());
                p.append("/rewards/user-rewards/");
                p.append(user_reward_id.as_str());
                p.append("/redeem");
                p
            },
            Endpoint::GetPendingRewardRedemptions { household_id } => {
                let mut p = String::from_str("/households/");
                p.append(household_id.as_str());
                p.append("/rewards/pending-confirmations");
                p
            },
            Endpoint::ApproveRewardRedemption { household_id, user_reward_id } => {
                let mut p = String::from_str("/households/");
                p.append(household_id.as_str());
                p.append("/rewards/user-rewards/");
                p.append(user_reward_id.as_str());
                p.append("/approve");
                p
            },
            Endpoint::RejectRewardRedemption { household_id, user_reward_id } => {
                let mut p = String::from_str("/households/");
                p.append(household_id.as_str());
                p.append("/rewards/user-rewards/");
                p.append(user_reward_id.as_str());
                p.append("/reject");
                p
            },
            Endpoint::GetRewardOptions { household_id, reward_id } => {
                let mut p = String::from_str("/households/");
                p.append(household_id.as_str());
                p.append("/rewards/");
                p.append(reward_id.as_str());
                p.append("/options");
                p
            },
            Endpoint::PickRandomReward { household_id, user_reward_id } => {
                let mut p = String::from_str("/households/");
                p.append(household_id.as_str());
                p.append("/rewards/user-rewards/");
                p.append(user_reward_id.as_str());
                p.append("/pick");
                p
            },
            Endpoint::ListPunishments { household_id } => {
                let mut p = String::from_str("/households/");
                p.append(household_id.as_str());
                p.append("/punishments");
                p
            },
            Endpoint::CreatePunishment { household_id } => {
                let mut p = String::from_str("/households/");
                p.append(household_id.as_str());
                p.append("/punishments");
                p
            },
            Endpoint::UpdatePunishment { household_id, punishment_id } => {
                let mut p = String::from_str("/households/");
                p.append(household_id.as_str());
                p.append("/punishments/");
                p.append(punishment_id.as_str());
                p
            },
            Endpoint::DeletePunishment { household_id, punishment_id } => {
                let mut p = String::from_str("/households/");
                p.append(household_id.as_str());
                p.append("/punishments/");
                p.append(punishment_id.as_str());
                p
            },
            Endpoint::ListUserPunishments { household_id } => {
                let mut p = String::from_str("/households/");
                p.append(household_id.as_str());
                p.append("/punishments/user-punishments");
                p
            },
            Endpoint::ListAllUserPunishments { household_id } => {
                let mut p = String::from_str("/households/");
                p.append(household_id.as_str());
                p.append("/punishments/user-punishments/all");
                p
            },
            Endpoint::DeleteUserPunishment { household_id, user_punishment_id } => {
                let mut p = String::from_str("/households/");
                p.append(household_id.as_str());
                p.append("/punishments/user-punishments/");
                p.append(user_punishment_id.as_str());
                p
            },
            Endpoint::CreateInvitation { household_id } => {
                let mut p = String::from_str("/households/");
                p.append(household_id.as_str());
                p.append("/invite");
                p
            },
            Endpoint::ListHouseholdInvitations { household_id } => {
                let mut p = String::from_str("/households/");
                p.append(household_id.as_str());
                p.append("/invitations");
                p
            },
            Endpoint::CancelInvitation { household_id, invitation_id } => {
                let mut p = String::from_str("/households/");
                p.append(household_id.as_str());
                p.append("/invitations/");
                p.append(invitation_id.as_str());
                p
            },
            Endpoint::GetMyInvitations => String::from_str("/invitations"),
            Endpoint::AcceptInvitation { invitation_id } => {
                let mut p = String::from_str("/invitations/");
                p.append(invitation_id.as_str());
                p.append("/accept");
                p
            },
            Endpoint::DeclineInvitation { invitation_id } => {
                let mut p = String::from_str("/invitations/");
                p.append(invitation_id.as_str());
                p.append("/decline");
                p
            },
            Endpoint::AdjustMemberPoints { household_id, user_id } => {
                let mut p = String::from_str("/households/");
                p.append(household_id.as_str());
                p.append("/members/");
                p.append(user_id.as_str());
                p.append("/points");
                p
            },
            Endpoint::UpdateMemberRole { household_id, user_id } => {
                let mut p = String::from_str("/households/");
                p.append(household_id.as_str());
                p.append("/members/");
                p.append(user_id.as_str());
                p.append("/role");
                p
            },
            Endpoint::AssignReward { household_id, reward_id, user_id } => {
                let mut p = String::from_str("/households/");
                p.append(household_id.as_str());
                p.append("/rewards/");
                p.append(reward_id.as_str());
                p.append("/assign/");
                p.append(user_id.as_str());
                p
            },
            Endpoint::AssignPunishment { household_id, punishment_id, user_id } => {
                let mut p = String::from_str("/households/");
                p.append(household_id.as_str());
                p.append("/punishments/");
                p.append(punishment_id.as_str());
                p.append("/assign/");
                p.append(user_id.as_str());
                p
            },
            Endpoint::UnassignReward { household_id, reward_id, user_id } => {
                let mut p = String::from_str("/households/");
                p.append(household_id.as_str());
                p.append("/rewards/");
                p.append(reward_id.as_str());
                p.append("/unassign/");
                p.append(user_id.as_str());
                p
            },
            Endpoint::UnassignPunishment { household_id, punishment_id, user_id } => {
                let mut p = String::from_str("/households/");
                p.append(household_id.as_str());
                p.append("/punishments/");
                p.append(punishment_id.as_str());
                p.append("/unassign/");
                p.append(user_id.as_str());
                p
            },
            Endpoint::CompletePunishment { household_id, user_punishment_id } => {
                let mut p = String::from_str("/households/");
                p.append(household_id.as_str());
                p.append("/punishments/user-punishments/");
                p.append(user_punishment_id.as_str());
                p.append("/complete");
                p
            },
            Endpoint::GetPendingPunishmentCompletions { household_id } => {
                let mut p = String::from_str("/households/");
                p.append(household_id.as_str());
                p.append("/punishments/pending-confirmations");
                p
            },
            Endpoint::ApprovePunishmentCompletion { household_id, user_punishment_id } => {
                let mut p = String::from_str("/households/");
                p.append(household_id.as_str());
                p.append("/punishments/user-punishments/");
                p.append(user_punishment_id.as_str());
                p.append("/approve");
                p
            },
            Endpoint::RejectPunishmentCompletion { household_id, user_punishment_id } => {
                let mut p = String::from_str("/households/");
                p.append(household_id.as_str());
                p.append("/punishments/user-punishments/");
                p.append(user_punishment_id.as_str());
                p.append("/reject");
                p
            },
            Endpoint::GetPunishmentOptions { household_id, punishment_id } => {
                let mut p = String::from_str("/households/");
                p.append(household_id.as_str());
                p.append("/punishments/");
                p.append(punishment_id.as_str());
                p.append("/options");
                p
            },
            Endpoint::PickRandomPunishment { household_id, user_punishment_id } => {
                let mut p = String::from_str("/households/");
                p.append(household_id.as_str());
                p.append("/punishments/user-punishments/");
                p.append(user_punishment_id.as_str());
                p.append("/pick");
                p
            },
            Endpoint::ListActivities { household_id, limit } => activities_path(household_id.as_str(), *limit),
            Endpoint::ListChatMessages { household_id, limit, before } => match before {
                Some(b) => chat_path(household_id.as_str(), *limit, Some(b.as_str())),
                None => chat_path(household_id.as_str(), *limit, None),
            },
            Endpoint::SendChatMessage { household_id } => {
                let mut p = String::from_str("/households/");
                p.append(household_id.as_str());
                p.append("/chat");
                p
            },
            Endpoint::UpdateChatMessage { household_id, message_id } => {
                let mut p = String::from_str("/households/");
                p.append(household_id.as_str());
                p.append("/chat/");
                p.append(message_id.as_str());
                p
            },
            Endpoint::DeleteChatMessage { household_id, message_id } => {
                let mut p = String::from_str("/households/");
                p.append(household_id.as_str());
                p.append("/chat/");
                p.append(message_id.as_str());
                p
            },
            Endpoint::ListNotes { household_id } => {
                let mut p = String::from_str("/households/");
                p.append(household_id.as_str());
                p.append("/notes");
                p
            },
            Endpoint::CreateNote { household_id } => {
                let mut p = String::from_str("/households/");
                p.append(household_id.as_str());
                p.append("/notes");
                p
            },
            Endpoint::GetNote { household_id, note_id } => {
                let mut p = String::from_str("/households/");
                p.append(household_id.as_str());
                p.append("/notes/");
                p.append(note_id.as_str());
                p
            },
            Endpoint::UpdateNote { household_id, note_id } => {
                let mut p = String::from_str("/households/");
                p.append(household_id.as_str());
                p.append("/notes/");
                p.append(note_id.as_str());
                p
            },
            Endpoint::DeleteNote { household_id, note_id } => {
                let mut p = String::from_str("/households/");
                p.append(household_id.as_str());
                p.append("/notes/");
                p.append(note_id.as_str());
                p
            },
            Endpoint::ListJournalEntries { household_id } => {
                let mut p = String::from_str("/households/");
                p.append(household_id.as_str());
                p.append("/journal");
                p
            },
            Endpoint::CreateJournalEntry { household_id } => {
                let mut p = String::from_str("/households/");
                p.append(household_id.as_str());
                p.append("/journal");
                p
            },
            Endpoint::GetJournalEntry { household_id, entry_id } => {
                let mut p = String::from_str("/households/");
                p.append(household_id.as_str());
                p.append("/journal/");
                p.append(entry_id.as_str());
                p
            },
            Endpoint::UpdateJournalEntry { household_id, entry_id } => {
                let mut p = String::from_str("/households/");
                p.append(household_id.as_str());
                p.append("/journal/");
                p.append(entry_id.as_str());
                p
            },
            Endpoint::DeleteJournalEntry { household_id, entry_id } => {
                let mut p = String::from_str("/households/");
                p.append(household_id.as_str());
                p.append("/journal/");
                p.append(entry_id.as_str());
                p
            },
            Endpoint::ListAnnouncements { household_id } => {
                let mut p = String::from_str("/households/");
                p.append(household_id.as_str());
                p.append("/announcements");
                p
            },
            Endpoint::ListActiveAnnouncements { household_id } => {
                let mut p = String::from_str("/households/");
                p.append(household_id.as_str());
                p.append("/announcements/active");
                p
            },
            Endpoint::CreateAnnouncement { household_id } => {
                let mut p = String::from_str("/households/");
                p.append(household_id.as_str());
                p.append("/announcements");
                p
            },
            Endpoint::UpdateAnnouncement { household_id, announcement_id } => {
                let mut p = String::from_str("/households/");
                p.append(household_id.as_str());
                p.append("/announcements/");
                p.append(announcement_id.as_str());
                p
            },
            Endpoint::DeleteAnnouncement { household_id, announcement_id } => {
                let mut p = String::from_str("/households/");
                p.append(household_id.as_str());
                p.append("/announcements/");
                p.append(announcement_id.as_str());
                p
            },
            Endpoint::GetUserSettings => String::from_str("/users/me/settings"),
            Endpoint::UpdateUserSettings => String::from_str("/users/me/settings"),
            Endpoint::GetDashboardTaskIds => String::from_str("/dashboard/tasks"),
            Endpoint::IsTaskOnDashboard { task_id } => {
                let mut p = String::from_str("/dashboard/tasks/");
                p.append(task_id.as_str());
                p
            },
            Endpoint::AddTaskToDashboard { task_id } => {
                let mut p = String::from_str("/dashboard/tasks/");
                p.append(task_id.as_str());
                p
            },
            Endpoint::RemoveTaskFromDashboard { task_id } => {
                let mut p = String::from_str("/dashboard/tasks/");
                p.append(task_id.as_str());
                p
            },
            Endpoint::GetDashboardTasksWithStatus => String::from_str("/dashboard/tasks/details"),
            Endpoint::GetAllTasksAcrossHouseholds => String::from_str("/dashboard/tasks/all"),
        }
    }
}

/// The calls that carry no id, numbered `0 <= k < 11` in this order: `Register`, `Login`, `GetCurrentUser`, `ListHouseholds`, `CreateHousehold`, `GetMyInvitations`, `GetUserSettings`, `UpdateUserSettings`, `GetDashboardTaskIds`, `GetDashboardTasksWithStatus`, `GetAllTasksAcrossHouseholds`.
pub open spec fn fixed_call(k: int) -> Endpoint {
    if k == 0 {
        Endpoint::Register
    } else if k == 1 {
        Endpoint::Login
    } else if k == 2 {
        Endpoint::GetCurrentUser
    } else if k == 3 {
        Endpoint::ListHouseholds
    } else if k == 4 {
        Endpoint::CreateHousehold
    } else if k == 5 {
        Endpoint::GetMyInvitations
    } else if k == 6 {
        Endpoint::GetUserSettings
    } else if k == 7 {
        Endpoint::UpdateUserSettings
    } else if k == 8 {
        Endpoint::GetDashboardTaskIds
    } else if k == 9 {
        Endpoint::GetDashboardTasksWithStatus
    } else {
        Endpoint::GetAllTasksAcrossHouseholds
    }
}

/// The route below the shared resource path that each of the calls that carry no id takes.
spec fn fixed_call_route(k: int) -> Seq<char> {
    if k == 0 {
        "/auth/register"@
    } else if k == 1 {
        "/auth/login"@
    } else if k == 2 {
        "/auth/me"@
    } else if k == 3 {
        "/households"@
    } else if k == 4 {
        "/households"@
    } else if k == 5 {
        "/invitations"@
    } else if k == 6 {
        "/users/me/settings"@
    } else if k == 7 {
        "/users/me/settings"@
    } else if k == 8 {
        "/dashboard/tasks"@
    } else if k == 9 {
        "/dashboard/tasks/details"@
    } else {
        "/dashboard/tasks/all"@
    }
}

/// Each of the calls that carry no id goes to a route below `the empty path`, and two different ones never share
/// both method and path.
pub proof fn lemma_fixed_calls_have_their_own_routes(i: int, j: int)
    requires
        0 <= i < 11,
        0 <= j < 11,
    ensures
        (Seq::<char>::empty()).is_prefix_of(endpoint_path(fixed_call(i))),
        i != j ==> endpoint_method(fixed_call(i)) != endpoint_method(
            fixed_call(j),
        ) || endpoint_path(fixed_call(i)) != endpoint_path(
            fixed_call(j),
        ),
{
    let base = Seq::<char>::empty();
    let pi = endpoint_path(fixed_call(i));
    let pj = endpoint_path(fixed_call(j));
    let si = fixed_call_route(i);
    let sj = fixed_call_route(j);
    assert(pi =~= base + si);
    assert(pj =~= base + sj);
    assert(pi.take(base.len() as int) =~= base);
    reveal_strlit("/auth/login");
    reveal_strlit("/auth/me");
    reveal_strlit("/auth/register");
    reveal_strlit("/dashboard/tasks");
    reveal_strlit("/dashboard/tasks/all");
    reveal_strlit("/dashboard/tasks/details");
    reveal_strlit("/households");
    reveal_strlit("/invitations");
    reveal_strlit("/users/me/settings");
    if i != j && pi == pj && endpoint_method(fixed_call(i)) == endpoint_method(
        fixed_call(j),
    ) {
        assert(pi.skip(base.len() as int) =~= si);
        assert(pj.skip(base.len() as int) =~= sj);
        assert(si.len() == sj.len());
        if si.len() > 1 {
            assert(si[1] == sj[1]);
        }
    }
}

/// The calls on one household by its id, numbered `0 <= k < 2` in this order: `GetHousehold`, `DeleteHousehold`.
pub open spec fn household_call(k: int, id: String) -> Endpoint {
    if k == 0 {
        Endpoint::GetHousehold { id }
    } else {
        Endpoint::DeleteHousehold { id }
    }
}

/// The route below the shared resource path that each of the calls on one household by its id takes.
spec fn household_call_route(k: int, id: String) -> Seq<char> {
    if k == 0 {
        Seq::<char>::empty()
    } else {
        Seq::<char>::empty()
    }
}

/// Each of the calls on one household by its id goes to a route below `/households/{id}`, and two different ones never share
/// both method and path.
pub proof fn lemma_household_calls_have_their_own_routes(id: String, i: int, j: int)
    requires
        0 <= i < 2,
        0 <= j < 2,
    ensures
        ("/households/"@ + id@).is_prefix_of(endpoint_path(household_call(i, id))),
        i != j ==> endpoint_method(household_call(i, id)) != endpoint_method(
            household_call(j, id),
        ) || endpoint_path(household_call(i, id)) != endpoint_path(
            household_call(j, id),
        ),
{
    let base = "/households/"@ + id@;
    let pi = endpoint_path(household_call(i, id));
    let pj = endpoint_path(household_call(j, id));
    let si = household_call_route(i, id);
    let sj = household_call_route(j, id);
    assert(pi =~= base + si);
    assert(pj =~= base + sj);
    assert(pi.take(base.len() as int) =~= base);
    if i != j && pi == pj && endpoint_method(household_call(i, id)) == endpoint_method(
        household_call(j, id),
    ) {
        assert(pi.skip(base.len() as int) =~= si);
        assert(pj.skip(base.len() as int) =~= sj);
        assert(si.len() == sj.len());
    }
}

/// The calls on the collections of one household, numbered `0 <= k < 37` in this order: `ListMembers`, `InviteMember`, `GetLeaderboard`, `GetHouseholdSettings`, `UpdateHouseholdSettings`, `ListTasks`, `GetDueTasks`, `GetAllTasksWithStatus`, `GetMyAssignedTasks`, `CreateTask`, `ListArchivedTasks`, `ListCategories`, `CreateCategory`, `GetPendingReviews`, `ListSuggestions`, `ListPointConditions`, `CreatePointCondition`, `ListRewards`, `CreateReward`, `ListUserRewards`, `ListAllUserRewards`, `GetPendingRewardRedemptions`, `ListPunishments`, `CreatePunishment`, `ListUserPunishments`, `ListAllUserPunishments`, `CreateInvitation`, `ListHouseholdInvitations`, `GetPendingPunishmentCompletions`, `SendChatMessage`, `ListNotes`, `CreateNote`, `ListJournalEntries`, `CreateJournalEntry`, `ListAnnouncements`, `ListActiveAnnouncements`, `CreateAnnouncement`.
pub open spec fn household_scoped_call(k: int, household_id: String) -> Endpoint {
    if k == 0 {
        Endpoint::ListMembers { household_id }
    } else if k == 1 {
        Endpoint::InviteMember { household_id }
    } else if k == 2 {
        Endpoint::GetLeaderboard { household_id }
    } else if k == 3 {
        Endpoint::GetHouseholdSettings { household_id }
    } else if k == 4 {
        Endpoint::UpdateHouseholdSettings { household_id }
    } else if k == 5 {
        Endpoint::ListTasks { household_id }
    } else if k == 6 {
        Endpoint::GetDueTasks { household_id }
    } else if k == 7 {
        Endpoint::GetAllTasksWithStatus { household_id }
    } else if k == 8 {
        Endpoint::GetMyAssignedTasks { household_id }
    } else if k == 9 {
        Endpoint::CreateTask { household_id }
    } else if k == 10 {
        Endpoint::ListArchivedTasks { household_id }
    } else if k == 11 {
        Endpoint::ListCategories { household_id }
    } else if k == 12 {
        Endpoint::CreateCategory { household_id }
    } else if k == 13 {
        Endpoint::GetPendingReviews { household_id }
    } else if k == 14 {
        Endpoint::ListSuggestions { household_id }
    } else if k == 15 {
        Endpoint::ListPointConditions { household_id }
    } else if k == 16 {
        Endpoint::CreatePointCondition { household_id }
    } else if k == 17 {
        Endpoint::ListRewards { household_id }
    } else if k == 18 {
        Endpoint::CreateReward { household_id }
    } else if k == 19 {
        Endpoint::ListUserRewards { household_id }
    } else if k == 20 {
        Endpoint::ListAllUserRewards { household_id }
    } else if k == 21 {
        Endpoint::GetPendingRewardRedemptions { household_id }
    } else if k == 22 {
        Endpoint::ListPunishments { household_id }
    } else if k == 23 {
        Endpoint::CreatePunishment { household_id }
    } else if k == 24 {
        Endpoint::ListUserPunishments { household_id }
    } else if k == 25 {
        Endpoint::ListAllUserPunishments { household_id }
    } else if k == 26 {
        Endpoint::CreateInvitation { household_id }
    } else if k == 27 {
        Endpoint::ListHouseholdInvitations { household_id }
    } else if k == 28 {
        Endpoint::GetPendingPunishmentCompletions { household_id }
    } else if k == 29 {
        Endpoint::SendChatMessage { household_id }
    } else if k == 30 {
        Endpoint::ListNotes { household_id }
    } else if k == 31 {
        Endpoint::CreateNote { household_id }
    } else if k == 32 {
        Endpoint::ListJournalEntries { household_id }
    } else if k == 33 {
        Endpoint::CreateJournalEntry { household_id }
    } else if k == 34 {
        Endpoint::ListAnnouncements { household_id }
    } else if k == 35 {
        Endpoint::ListActiveAnnouncements { household_id }
    } else {
        Endpoint::CreateAnnouncement { household_id }
    }
}

/// The route below the shared resource path that each of the calls on the collections of one household takes.
spec fn household_scoped_call_route(k: int, household_id: String) -> Seq<char> {
    if k == 0 {
        "/members"@
    } else if k == 1 {
        "/invite"@
    } else if k == 2 {
        "/leaderboard"@
    } else if k == 3 {
        "/settings"@
    } else if k == 4 {
        "/settings"@
    } else if k == 5 {
        "/tasks"@
    } else if k == 6 {
        "/tasks/due"@
    } else if k == 7 {
        "/tasks/all"@
    } else if k == 8 {
        "/tasks/assigned-to-me"@
    } else if k == 9 {
        "/tasks"@
    } else if k == 10 {
        "/tasks/archived"@
    } else if k == 11 {
        "/categories"@
    } else if k == 12 {
        "/categories"@
    } else if k == 13 {
        "/tasks/pending-reviews"@
    } else if k == 14 {
        "/tasks/suggestions"@
    } else if k == 15 {
        "/point-conditions"@
    } else if k == 16 {
        "/point-conditions"@
    } else if k == 17 {
        "/rewards"@
    } else if k == 18 {
        "/rewards"@
    } else if k == 19 {
        "/rewards/user-rewards"@
    } else if k == 20 {
        "/rewards/user-rewards/all"@
    } else if k == 21 {
        "/rewards/pending-confirmations"@
    } else if k == 22 {
        "/punishments"@
    } else if k == 23 {
        "/punishments"@
    } else if k == 24 {
        "/punishments/user-punishments"@
    } else if k == 25 {
        "/punishments/user-punishments/all"@
    } else if k == 26 {
        "/invite"@
    } else if k == 27 {
        "/invitations"@
    } else if k == 28 {
        "/punishments/pending-confirmations"@
    } else if k == 29 {
        "/chat"@
    } else if k == 30 {
        "/notes"@
    } else if k == 31 {
        "/notes"@
    } else if k == 32 {
        "/journal"@
    } else if k == 33 {
        "/journal"@
    } else if k == 34 {
        "/announcements"@
    } else if k == 35 {
        "/announcements/active"@
    } else {
        "/announcements"@
    }
}

/// Each of the calls on the collections of one household goes to a route below `/households/{household_id}`, and two different ones never share
/// both method and path (`InviteMember` and `CreateInvitation` are one and the same call).
pub proof fn lemma_household_scoped_calls_have_their_own_routes(household_id: String, i: int, j: int)
    requires
        0 <= i < 37,
        0 <= j < 37,
        !(i == 1 && j == 26),
        !(i == 26 && j == 1),
    ensures
        ("/households/"@ + household_id@).is_prefix_of(endpoint_path(household_scoped_call(i, household_id))),
        i != j ==> endpoint_method(household_scoped_call(i, household_id)) != endpoint_method(
            household_scoped_call(j, household_id),
        ) || endpoint_path(household_scoped_call(i, household_id)) != endpoint_path(
            household_scoped_call(j, household_id),
        ),
{
    let base = "/households/"@ + household_id@;
    let pi = endpoint_path(household_scoped_call(i, household_id));
    let pj = endpoint_path(household_scoped_call(j, household_id));
    let si = household_scoped_call_route(i, household_id);
    let sj = household_scoped_call_route(j, household_id);
    assert(pi =~= base + si);
    assert(pj =~= base + sj);
    assert(pi.take(base.len() as int) =~= base);
    reveal_strlit("/announcements");
    reveal_strlit("/announcements/active");
    reveal_strlit("/categories");
    reveal_strlit("/chat");
    reveal_strlit("/invitations");
    reveal_strlit("/invite");
    reveal_strlit("/journal");
    reveal_strlit("/leaderboard");
    reveal_strlit("/members");
    reveal_strlit("/notes");
    reveal_strlit("/point-conditions");
    reveal_strlit("/punishments");
    reveal_strlit("/punishments/pending-confirmations");
    reveal_strlit("/punishments/user-punishments");
    reveal_strlit("/punishments/user-punishments/all");
    reveal_strlit("/rewards");
    reveal_strlit("/rewards/pending-confirmations");
    reveal_strlit("/rewards/user-rewards");
    reveal_strlit("/rewards/user-rewards/all");
    reveal_strlit("/settings");
    reveal_strlit("/tasks");
    reveal_strlit("/tasks/all");
    reveal_strlit("/tasks/archived");
    reveal_strlit("/tasks/assigned-to-me");
    reveal_strlit("/tasks/due");
    reveal_strlit("/tasks/pending-reviews");
    reveal_strlit("/tasks/suggestions");
    if i != j && pi == pj && endpoint_method(household_scoped_call(i, household_id)) == endpoint_method(
        household_scoped_call(j, household_id),
    ) {
        assert(pi.skip(base.len() as int) =~= si);
        assert(pj.skip(base.len() as int) =~= sj);
        assert(si.len() == sj.len());
        if si.len() > 1 {
            assert(si[1] == sj[1]);
        }
        if si.len() > 7 {
            assert(si[7] == sj[7]);
        }
    }
}

/// The calls on one task of a household, numbered `0 <= k < 13` in this order: `GetTaskDetails`, `CompleteTask`, `UncompleteTask`, `DeleteTask`, `UpdateTask`, `ArchiveTask`, `UnarchiveTask`, `PauseTask`, `UnpauseTask`, `GetTaskRewards`, `GetTaskPunishments`, `ApproveSuggestion`, `DenySuggestion`.
pub open spec fn task_call(k: int, household_id: String, task_id: String) -> Endpoint {
    if k == 0 {
        Endpoint::GetTaskDetails { household_id, task_id }
    } else if k == 1 {
        Endpoint::CompleteTask { household_id, task_id }
    } else if k == 2 {
        Endpoint::UncompleteTask { household_id, task_id }
    } else if k == 3 {
        Endpoint::DeleteTask { household_id, task_id }
    } else if k == 4 {
        Endpoint::UpdateTask { household_id, task_id }
    } else if k == 5 {
        Endpoint::ArchiveTask { household_id, task_id }
    } else if k == 6 {
        Endpoint::UnarchiveTask { household_id, task_id }
    } else if k == 7 {
        Endpoint::PauseTask { household_id, task_id }
    } else if k == 8 {
        Endpoint::UnpauseTask { household_id, task_id }
    } else if k == 9 {
        Endpoint::GetTaskRewards { household_id, task_id }
    } else if k == 10 {
        Endpoint::GetTaskPunishments { household_id, task_id }
    } else if k == 11 {
        Endpoint::ApproveSuggestion { household_id, task_id }
    } else {
        Endpoint::DenySuggestion { household_id, task_id }
    }
}

/// The route below the shared resource path that each of the calls on one task of a household takes.
spec fn task_call_route(k: int, household_id: String, task_id: String) -> Seq<char> {
    if k == 0 {
        "/details"@
    } else if k == 1 {
        "/complete"@
    } else if k == 2 {
        "/uncomplete"@
    } else if k == 3 {
        Seq::<char>::empty()
    } else if k == 4 {
        Seq::<char>::empty()
    } else if k == 5 {
        "/archive"@
    } else if k == 6 {
        "/unarchive"@
    } else if k == 7 {
        "/pause"@
    } else if k == 8 {
        "/unpause"@
    } else if k == 9 {
        "/rewards"@
    } else if k == 10 {
        "/punishments"@
    } else if k == 11 {
        "/approve"@
    } else {
        "/deny"@
    }
}

/// Each of the calls on one task of a household goes to a route below `/households/{household_id}/tasks/{task_id}`, and two different ones never share
/// both method and path.
pub proof fn lemma_task_calls_have_their_own_routes(household_id: String, task_id: String, i: int, j: int)
    requires
        0 <= i < 13,
        0 <= j < 13,
    ensures
        ("/households/"@ + household_id@ + "/tasks/"@ + task_id@).is_prefix_of(endpoint_path(task_call(i, household_id, task_id))),
        i != j ==> endpoint_method(task_call(i, household_id, task_id)) != endpoint_method(
            task_call(j, household_id, task_id),
        ) || endpoint_path(task_call(i, household_id, task_id)) != endpoint_path(
            task_call(j, household_id, task_id),
        ),
{
    let base = "/households/"@ + household_id@ + "/tasks/"@ + task_id@;
    let pi = endpoint_path(task_call(i, household_id, task_id));
    let pj = endpoint_path(task_call(j, household_id, task_id));
    let si = task_call_route(i, household_id, task_id);
    let sj = task_call_route(j, household_id, task_id);
    assert(pi =~= base + si);
    assert(pj =~= base + sj);
    assert(pi.take(base.len() as int) =~= base);
    reveal_strlit("/approve");
    reveal_strlit("/archive");
    reveal_strlit("/complete");
    reveal_strlit("/deny");
    reveal_strlit("/details");
    reveal_strlit("/pause");
    reveal_strlit("/punishments");
    reveal_strlit("/rewards");
    reveal_strlit("/unarchive");
    reveal_strlit("/uncomplete");
    reveal_strlit("/unpause");
    if i != j && pi == pj && endpoint_method(task_call(i, household_id, task_id)) == endpoint_method(
        task_call(j, household_id, task_id),
    ) {
        assert(pi.skip(base.len() as int) =~= si);
        assert(pj.skip(base.len() as int) =~= sj);
        assert(si.len() == sj.len());
        if si.len() > 1 {
            assert(si[1] == sj[1]);
        }
        if si.len() > 2 {
            assert(si[2] == sj[2]);
        }
    }
}

/// The calls on one category, numbered `0 <= k < 2` in this order: `UpdateCategory`, `DeleteCategory`.
pub open spec fn category_call(k: int, household_id: String, category_id: String) -> Endpoint {
    if k == 0 {
        Endpoint::UpdateCategory { household_id, category_id }
    } else {
        Endpoint::DeleteCategory { household_id, category_id }
    }
}

/// The route below the shared resource path that each of the calls on one category takes.
spec fn category_call_route(k: int, household_id: String, category_id: String) -> Seq<char> {
    if k == 0 {
        Seq::<char>::empty()
    } else {
        Seq::<char>::empty()
    }
}

/// Each of the calls on one category goes to a route below `/households/{household_id}/categories/{category_id}`, and two different ones never share
/// both method and path.
pub proof fn lemma_category_calls_have_their_own_routes(household_id: String, category_id: String, i: int, j: int)
    requires
        0 <= i < 2,
        0 <= j < 2,
    ensures
        ("/households/"@ + household_id@ + "/categories/"@ + category_id@).is_prefix_of(endpoint_path(category_call(i, household_id, category_id))),
        i != j ==> endpoint_method(category_call(i, household_id, category_id)) != endpoint_method(
            category_call(j, household_id, category_id),
        ) || endpoint_path(category_call(i, household_id, category_id)) != endpoint_path(
            category_call(j, household_id, category_id),
        ),
{
    let base = "/households/"@ + household_id@ + "/categories/"@ + category_id@;
    let pi = endpoint_path(category_call(i, household_id, category_id));
    let pj = endpoint_path(category_call(j, household_id, category_id));
    let si = category_call_route(i, household_id, category_id);
    let sj = category_call_route(j, household_id, category_id);
    assert(pi =~= base + si);
    assert(pj =~= base + sj);
    assert(pi.take(base.len() as int) =~= base);
    if i != j && pi == pj && endpoint_method(category_call(i, household_id, category_id)) == endpoint_method(
        category_call(j, household_id, category_id),
    ) {
        assert(pi.skip(base.len() as int) =~= si);
        assert(pj.skip(base.len() as int) =~= sj);
        assert(si.len() == sj.len());
    }
}

/// The calls on one task completion awaiting review, numbered `0 <= k < 2` in this order: `ApproveCompletion`, `RejectCompletion`.
pub open spec fn completion_call(k: int, household_id: String, completion_id: String) -> Endpoint {
    if k == 0 {
        Endpoint::ApproveCompletion { household_id, completion_id }
    } else {
        Endpoint::RejectCompletion { household_id, completion_id }
    }
}

/// The route below the shared resource path that each of the calls on one task completion awaiting review takes.
spec fn completion_call_route(k: int, household_id: String, completion_id: String) -> Seq<char> {
    if k == 0 {
        "/approve"@
    } else {
        "/reject"@
    }
}

/// Each of the calls on one task completion awaiting review goes to a route below `/households/{household_id}/tasks/completions/{completion_id}`, and two different ones never share
/// both method and path.
pub proof fn lemma_completion_calls_have_their_own_routes(household_id: String, completion_id: String, i: int, j: int)
    requires
        0 <= i < 2,
        0 <= j < 2,
    ensures
        ("/households/"@ + household_id@ + "/tasks/completions/"@ + completion_id@).is_prefix_of(endpoint_path(completion_call(i, household_id, completion_id))),
        i != j ==> endpoint_method(completion_call(i, household_id, completion_id)) != endpoint_method(
            completion_call(j, household_id, completion_id),
        ) || endpoint_path(completion_call(i, household_id, completion_id)) != endpoint_path(
            completion_call(j, household_id, completion_id),
        ),
{
    let base = "/households/"@ + household_id@ + "/tasks/completions/"@ + completion_id@;
    let pi = endpoint_path(completion_call(i, household_id, completion_id));
    let pj = endpoint_path(completion_call(j, household_id, completion_id));
    let si = completion_call_route(i, household_id, completion_id);
    let sj = completion_call_route(j, household_id, completion_id);
    assert(pi =~= base + si);
    assert(pj =~= base + sj);
    assert(pi.take(base.len() as int) =~= base);
    reveal_strlit("/approve");
    reveal_strlit("/reject");
    if i != j && pi == pj && endpoint_method(completion_call(i, household_id, completion_id)) == endpoint_method(
        completion_call(j, household_id, completion_id),
    ) {
        assert(pi.skip(base.len() as int) =~= si);
        assert(pj.skip(base.len() as int) =~= sj);
        assert(si.len() == sj.len());
    }
}

/// The calls on one reward, numbered `0 <= k < 4` in this order: `UpdateReward`, `PurchaseReward`, `DeleteReward`, `GetRewardOptions`.
pub open spec fn reward_call(k: int, household_id: String, reward_id: String) -> Endpoint {
    if k == 0 {
        Endpoint::UpdateReward { household_id, reward_id }
    } else if k == 1 {
        Endpoint::PurchaseReward { household_id, reward_id }
    } else if k == 2 {
        Endpoint::DeleteReward { household_id, reward_id }
    } else {
        Endpoint::GetRewardOptions { household_id, reward_id }
    }
}

/// The route below the shared resource path that each of the calls on one reward takes.
spec fn reward_call_route(k: int, household_id: String, reward_id: String) -> Seq<char> {
    if k == 0 {
        Seq::<char>::empty()
    } else if k == 1 {
        "/purchase"@
    } else if k == 2 {
        Seq::<char>::empty()
    } else {
        "/options"@
    }
}

/// Each of the calls on one reward goes to a route below `/households/{household_id}/rewards/{reward_id}`, and two different ones never share
/// both method and path.
pub proof fn lemma_reward_calls_have_their_own_routes(household_id: String, reward_id: String, i: int, j: int)
    requires
        0 <= i < 4,
        0 <= j < 4,
    ensures
        ("/households/"@ + household_id@ + "/rewards/"@ + reward_id@).is_prefix_of(endpoint_path(reward_call(i, household_id, reward_id))),
        i != j ==> endpoint_method(reward_call(i, household_id, reward_id)) != endpoint_method(
            reward_call(j, household_id, reward_id),
        ) || endpoint_path(reward_call(i, household_id, reward_id)) != endpoint_path(
            reward_call(j, household_id, reward_id),
        ),
{
    let base = "/households/"@ + household_id@ + "/rewards/"@ + reward_id@;
    let pi = endpoint_path(reward_call(i, household_id, reward_id));
    let pj = endpoint_path(reward_call(j, household_id, reward_id));
    let si = reward_call_route(i, household_id, reward_id);
    let sj = reward_call_route(j, household_id, reward_id);
    assert(pi =~= base + si);
    assert(pj =~= base + sj);
    assert(pi.take(base.len() as int) =~= base);
    reveal_strlit("/options");
    reveal_strlit("/purchase");
    if i != j && pi == pj && endpoint_method(reward_call(i, household_id, reward_id)) == endpoint_method(
        reward_call(j, household_id, reward_id),
    ) {
        assert(pi.skip(base.len() as int) =~= si);
        assert(pj.skip(base.len() as int) =~= sj);
        assert(si.len() == sj.len());
    }
}

/// The calls on one reward a member holds, numbered `0 <= k < 5` in this order: `DeleteUserReward`, `RedeemReward`, `ApproveRewardRedemption`, `RejectRewardRedemption`, `PickRandomReward`.
pub open spec fn user_reward_call(k: int, household_id: String, user_reward_id: String) -> Endpoint {
    if k == 0 {
        Endpoint::DeleteUserReward { household_id, user_reward_id }
    } else if k == 1 {
        Endpoint::RedeemReward { household_id, user_reward_id }
    } else if k == 2 {
        Endpoint::ApproveRewardRedemption { household_id, user_reward_id }
    } else if k == 3 {
        Endpoint::RejectRewardRedemption { household_id, user_reward_id }
    } else {
        Endpoint::PickRandomReward { household_id, user_reward_id }
    }
}

/// The route below the shared resource path that each of the calls on one reward a member holds takes.
spec fn user_reward_call_route(k: int, household_id: String, user_reward_id: String) -> Seq<char> {
    if k == 0 {
        Seq::<char>::empty()
    } else if k == 1 {
        "/redeem"@
    } else if k == 2 {
        "/approve"@
    } else if k == 3 {
        "/reject"@
    } else {
        "/pick"@
    }
}

/// Each of the calls on one reward a member holds goes to a route below `/households/{household_id}/rewards/user-rewards/{user_reward_id}`, and two different ones never share
/// both method and path.
pub proof fn lemma_user_reward_calls_have_their_own_routes(household_id: String, user_reward_id: String, i: int, j: int)
    requires
        0 <= i < 5,
        0 <= j < 5,
    ensures
        ("/households/"@ + household_id@ + "/rewards/user-rewards/"@ + user_reward_id@).is_prefix_of(endpoint_path(user_reward_call(i, household_id, user_reward_id))),
        i != j ==> endpoint_method(user_reward_call(i, household_id, user_reward_id)) != endpoint_method(
            user_reward_call(j, household_id, user_reward_id),
        ) || endpoint_path(user_reward_call(i, household_id, user_reward_id)) != endpoint_path(
            user_reward_call(j, household_id, user_reward_id),
        ),
{
    let base = "/households/"@ + household_id@ + "/rewards/user-rewards/"@ + user_reward_id@;
    let pi = endpoint_path(user_reward_call(i, household_id, user_reward_id));
    let pj = endpoint_path(user_reward_call(j, household_id, user_reward_id));
    let si = user_reward_call_route(i, household_id, user_reward_id);
    let sj = user_reward_call_route(j, household_id, user_reward_id);
    assert(pi =~= base + si);
    assert(pj =~= base + sj);
    assert(pi.take(base.len() as int) =~= base);
    reveal_strlit("/approve");
    reveal_strlit("/pick");
    reveal_strlit("/redeem");
    reveal_strlit("/reject");
    if i != j && pi == pj && endpoint_method(user_reward_call(i, household_id, user_reward_id)) == endpoint_method(
        user_reward_call(j, household_id, user_reward_id),
    ) {
        assert(pi.skip(base.len() as int) =~= si);
        assert(pj.skip(base.len() as int) =~= sj);
        assert(si.len() == sj.len());
        if si.len() > 3 {
            assert(si[3] == sj[3]);
        }
    }
}

/// The calls on one punishment, numbered `0 <= k < 3` in this order: `UpdatePunishment`, `DeletePunishment`, `GetPunishmentOptions`.
pub open spec fn punishment_call(k: int, household_id: String, punishment_id: String) -> Endpoint {
    if k == 0 {
        Endpoint::UpdatePunishment { household_id, punishment_id }
    } else if k == 1 {
        Endpoint::DeletePunishment { household_id, punishment_id }
    } else {
        Endpoint::GetPunishmentOptions { household_id, punishment_id }
    }
}

/// The route below the shared resource path that each of the calls on one punishment takes.
spec fn punishment_call_route(k: int, household_id: String, punishment_id: String) -> Seq<char> {
    if k == 0 {
        Seq::<char>::empty()
    } else if k == 1 {
        Seq::<char>::empty()
    } else {
        "/options"@
    }
}

/// Each of the calls on one punishment goes to a route below `/households/{household_id}/punishments/{punishment_id}`, and two different ones never share
/// both method and path.
pub proof fn lemma_punishment_calls_have_their_own_routes(household_id: String, punishment_id: String, i: int, j: int)
    requires
        0 <= i < 3,
        0 <= j < 3,
    ensures
        ("/households/"@ + household_id@ + "/punishments/"@ + punishment_id@).is_prefix_of(endpoint_path(punishment_call(i, household_id, punishment_id))),
        i != j ==> endpoint_method(punishment_call(i, household_id, punishment_id)) != endpoint_method(
            punishment_call(j, household_id, punishment_id),
        ) || endpoint_path(punishment_call(i, household_id, punishment_id)) != endpoint_path(
            punishment_call(j, household_id, punishment_id),
        ),
{
    let base = "/households/"@ + household_id@ + "/punishments/"@ + punishment_id@;
    let pi = endpoint_path(punishment_call(i, household_id, punishment_id));
    let pj = endpoint_path(punishment_call(j, household_id, punishment_id));
    let si = punishment_call_route(i, household_id, punishment_id);
    let sj = punishment_call_route(j, household_id, punishment_id);
    assert(pi =~= base + si);
    assert(pj =~= base + sj);
    assert(pi.take(base.len() as int) =~= base);
    reveal_strlit("/options");
    if i != j && pi == pj && endpoint_method(punishment_call(i, household_id, punishment_id)) == endpoint_method(
        punishment_call(j, household_id, punishment_id),
    ) {
        assert(pi.skip(base.len() as int) =~= si);
        assert(pj.skip(base.len() as int) =~= sj);
        assert(si.len() == sj.len());
    }
}

/// The calls on one punishment a member holds, numbered `0 <= k < 5` in this order: `DeleteUserPunishment`, `CompletePunishment`, `ApprovePunishmentCompletion`, `RejectPunishmentCompletion`, `PickRandomPunishment`.
pub open spec fn user_punishment_call(k: int, household_id: String, user_punishment_id: String) -> Endpoint {
    if k == 0 {
        Endpoint::DeleteUserPunishment { household_id, user_punishment_id }
    } else if k == 1 {
        Endpoint::CompletePunishment { household_id, user_punishment_id }
    } else if k == 2 {
        Endpoint::ApprovePunishmentCompletion { household_id, user_punishment_id }
    } else if k == 3 {
        Endpoint::RejectPunishmentCompletion { household_id, user_punishment_id }
    } else {
        Endpoint::PickRandomPunishment { household_id, user_punishment_id }
    }
}

/// The route below the shared resource path that each of the calls on one punishment a member holds takes.
spec fn user_punishment_call_route(k: int, household_id: String, user_punishment_id: String) -> Seq<char> {
    if k == 0 {
        Seq::<char>::empty()
    } else if k == 1 {
        "/complete"@
    } else if k == 2 {
        "/approve"@
    } else if k == 3 {
        "/reject"@
    } else {
        "/pick"@
    }
}

/// Each of the calls on one punishment a member holds goes to a route below `/households/{household_id}/punishments/user-punishments/{user_punishment_id}`, and two different ones never share
/// both method and path.
pub proof fn lemma_user_punishment_calls_have_their_own_routes(household_id: String, user_punishment_id: String, i: int, j: int)
    requires
        0 <= i < 5,
        0 <= j < 5,
    ensures
        ("/households/"@ + household_id@ + "/punishments/user-punishments/"@ + user_punishment_id@).is_prefix_of(endpoint_path(user_punishment_call(i, household_id, user_punishment_id))),
        i != j ==> endpoint_method(user_punishment_call(i, household_id, user_punishment_id)) != endpoint_method(
            user_punishment_call(j, household_id, user_punishment_id),
        ) || endpoint_path(user_punishment_call(i, household_id, user_punishment_id)) != endpoint_path(
            user_punishment_call(j, household_id, user_punishment_id),
        ),
{
    let base = "/households/"@ + household_id@ + "/punishments/user-punishments/"@ + user_punishment_id@;
    let pi = endpoint_path(user_punishment_call(i, household_id, user_punishment_id));
    let pj = endpoint_path(user_punishment_call(j, household_id, user_punishment_id));
    let si = user_punishment_call_route(i, household_id, user_punishment_id);
    let sj = user_punishment_call_route(j, household_id, user_punishment_id);
    assert(pi =~= base + si);
    assert(pj =~= base + sj);
    assert(pi.take(base.len() as int) =~= base);
    reveal_strlit("/approve");
    reveal_strlit("/complete");
    reveal_strlit("/pick");
    reveal_strlit("/reject");
    if i != j && pi == pj && endpoint_method(user_punishment_call(i, household_id, user_punishment_id)) == endpoint_method(
        user_punishment_call(j, household_id, user_punishment_id),
    ) {
        assert(pi.skip(base.len() as int) =~= si);
        assert(pj.skip(base.len() as int) =~= sj);
        assert(si.len() == sj.len());
    }
}

/// The calls on one invitation of the signed-in user, numbered `0 <= k < 2` in this order: `AcceptInvitation`, `DeclineInvitation`.
pub open spec fn invitation_call(k: int, invitation_id: String) -> Endpoint {
    if k == 0 {
        Endpoint::AcceptInvitation { invitation_id }
    } else {
        Endpoint::DeclineInvitation { invitation_id }
    }
}

/// The route below the shared resource path that each of the calls on one invitation of the signed-in user takes.
spec fn invitation_call_route(k: int, invitation_id: String) -> Seq<char> {
    if k == 0 {
        "/accept"@
    } else {
        "/decline"@
    }
}

/// Each of the calls on one invitation of the signed-in user goes to a route below `/invitations/{invitation_id}`, and two different ones never share
/// both method and path.
pub proof fn lemma_invitation_calls_have_their_own_routes(invitation_id: String, i: int, j: int)
    requires
        0 <= i < 2,
        0 <= j < 2,
    ensures
        ("/invitations/"@ + invitation_id@).is_prefix_of(endpoint_path(invitation_call(i, invitation_id))),
        i != j ==> endpoint_method(invitation_call(i, invitation_id)) != endpoint_method(
            invitation_call(j, invitation_id),
        ) || endpoint_path(invitation_call(i, invitation_id)) != endpoint_path(
            invitation_call(j, invitation_id),
        ),
{
    let base = "/invitations/"@ + invitation_id@;
    let pi = endpoint_path(invitation_call(i, invitation_id));
    let pj = endpoint_path(invitation_call(j, invitation_id));
    let si = invitation_call_route(i, invitation_id);
    let sj = invitation_call_route(j, invitation_id);
    assert(pi =~= base + si);
    assert(pj =~= base + sj);
    assert(pi.take(base.len() as int) =~= base);
    reveal_strlit("/accept");
    reveal_strlit("/decline");
    if i != j && pi == pj && endpoint_method(invitation_call(i, invitation_id)) == endpoint_method(
        invitation_call(j, invitation_id),
    ) {
        assert(pi.skip(base.len() as int) =~= si);
        assert(pj.skip(base.len() as int) =~= sj);
        assert(si.len() == sj.len());
    }
}

/// The calls on one member of a household, numbered `0 <= k < 2` in this order: `AdjustMemberPoints`, `UpdateMemberRole`.
pub open spec fn member_call(k: int, household_id: String, user_id: String) -> Endpoint {
    if k == 0 {
        Endpoint::AdjustMemberPoints { household_id, user_id }
    } else {
        Endpoint::UpdateMemberRole { household_id, user_id }
    }
}

/// The route below the shared resource path that each of the calls on one member of a household takes.
spec fn member_call_route(k: int, household_id: String, user_id: String) -> Seq<char> {
    if k == 0 {
        "/points"@
    } else {
        "/role"@
    }
}

/// Each of the calls on one member of a household goes to a route below `/households/{household_id}/members/{user_id}`, and two different ones never share
/// both method and path.
pub proof fn lemma_member_calls_have_their_own_routes(household_id: String, user_id: String, i: int, j: int)
    requires
        0 <= i < 2,
        0 <= j < 2,
    ensures
        ("/households/"@ + household_id@ + "/members/"@ + user_id@).is_prefix_of(endpoint_path(member_call(i, household_id, user_id))),
        i != j ==> endpoint_method(member_call(i, household_id, user_id)) != endpoint_method(
            member_call(j, household_id, user_id),
        ) || endpoint_path(member_call(i, household_id, user_id)) != endpoint_path(
            member_call(j, household_id, user_id),
        ),
{
    let base = "/households/"@ + household_id@ + "/members/"@ + user_id@;
    let pi = endpoint_path(member_call(i, household_id, user_id));
    let pj = endpoint_path(member_call(j, household_id, user_id));
    let si = member_call_route(i, household_id, user_id);
    let sj = member_call_route(j, household_id, user_id);
    assert(pi =~= base + si);
    assert(pj =~= base + sj);
    assert(pi.take(base.len() as int) =~= base);
    reveal_strlit("/points");
    reveal_strlit("/role");
    if i != j && pi == pj && endpoint_method(member_call(i, household_id, user_id)) == endpoint_method(
        member_call(j, household_id, user_id),
    ) {
        assert(pi.skip(base.len() as int) =~= si);
        assert(pj.skip(base.len() as int) =~= sj);
        assert(si.len() == sj.len());
    }
}

/// The calls assigning a reward to a member, numbered `0 <= k < 2` in this order: `AssignReward`, `UnassignReward`.
pub open spec fn reward_assignment_call(k: int, household_id: String, reward_id: String, user_id: String) -> Endpoint {
    if k == 0 {
        Endpoint::AssignReward { household_id, reward_id, user_id }
    } else {
        Endpoint::UnassignReward { household_id, reward_id, user_id }
    }
}

/// The route below the shared resource path that each of the calls assigning a reward to a member takes.
spec fn reward_assignment_call_route(k: int, household_id: String, reward_id: String, user_id: String) -> Seq<char> {
    if k == 0 {
        "/assign/"@ + user_id@
    } else {
        "/unassign/"@ + user_id@
    }
}

/// Each of the calls assigning a reward to a member goes to a route below `/households/{household_id}/rewards/{reward_id}`, and two different ones never share
/// both method and path.
pub proof fn lemma_reward_assignment_calls_have_their_own_routes(household_id: String, reward_id: String, user_id: String, i: int, j: int)
    requires
        0 <= i < 2,
        0 <= j < 2,
    ensures
        ("/households/"@ + household_id@ + "/rewards/"@ + reward_id@).is_prefix_of(endpoint_path(reward_assignment_call(i, household_id, reward_id, user_id))),
        i != j ==> endpoint_method(reward_assignment_call(i, household_id, reward_id, user_id)) != endpoint_method(
            reward_assignment_call(j, household_id, reward_id, user_id),
        ) || endpoint_path(reward_assignment_call(i, household_id, reward_id, user_id)) != endpoint_path(
            reward_assignment_call(j, household_id, reward_id, user_id),
        ),
{
    let base = "/households/"@ + household_id@ + "/rewards/"@ + reward_id@;
    let pi = endpoint_path(reward_assignment_call(i, household_id, reward_id, user_id));
    let pj = endpoint_path(reward_assignment_call(j, household_id, reward_id, user_id));
    let si = reward_assignment_call_route(i, household_id, reward_id, user_id);
    let sj = reward_assignment_call_route(j, household_id, reward_id, user_id);
    assert(pi =~= base + si);
    assert(pj =~= base + sj);
    assert(pi.take(base.len() as int) =~= base);
    reveal_strlit("/assign/");
    reveal_strlit("/unassign/");
    if i != j && pi == pj && endpoint_method(reward_assignment_call(i, household_id, reward_id, user_id)) == endpoint_method(
        reward_assignment_call(j, household_id, reward_id, user_id),
    ) {
        assert(pi.skip(base.len() as int) =~= si);
        assert(pj.skip(base.len() as int) =~= sj);
        assert(si.len() == sj.len());
    }
}

/// The calls assigning a punishment to a member, numbered `0 <= k < 2` in this order: `AssignPunishment`, `UnassignPunishment`.
pub open spec fn punishment_assignment_call(k: int, household_id: String, punishment_id: String, user_id: String) -> Endpoint {
    if k == 0 {
        Endpoint::AssignPunishment { household_id, punishment_id, user_id }
    } else {
        Endpoint::UnassignPunishment { household_id, punishment_id, user_id }
    }
}

/// The route below the shared resource path that each of the calls assigning a punishment to a member takes.
spec fn punishment_assignment_call_route(k: int, household_id: String, punishment_id: String, user_id: String) -> Seq<char> {
    if k == 0 {
        "/assign/"@ + user_id@
    } else {
        "/unassign/"@ + user_id@
    }
}

/// Each of the calls assigning a punishment to a member goes to a route below `/households/{household_id}/punishments/{punishment_id}`, and two different ones never share
/// both method and path.
pub proof fn lemma_punishment_assignment_calls_have_their_own_routes(household_id: String, punishment_id: String, user_id: String, i: int, j: int)
    requires
        0 <= i < 2,
        0 <= j < 2,
    ensures
        ("/households/"@ + household_id@ + "/punishments/"@ + punishment_id@).is_prefix_of(endpoint_path(punishment_assignment_call(i, household_id, punishment_id, user_id))),
        i != j ==> endpoint_method(punishment_assignment_call(i, household_id, punishment_id, user_id)) != endpoint_method(
            punishment_assignment_call(j, household_id, punishment_id, user_id),
        ) || endpoint_path(punishment_assignment_call(i, household_id, punishment_id, user_id)) != endpoint_path(
            punishment_assignment_call(j, household_id, punishment_id, user_id),
        ),
{
    let base = "/households/"@ + household_id@ + "/punishments/"@ + punishment_id@;
    let pi = endpoint_path(punishment_assignment_call(i, household_id, punishment_id, user_id));
    let pj = endpoint_path(punishment_assignment_call(j, household_id, punishment_id, user_id));
    let si = punishment_assignment_call_route(i, household_id, punishment_id, user_id);
    let sj = punishment_assignment_call_route(j, household_id, punishment_id, user_id);
    assert(pi =~= base + si);
    assert(pj =~= base + sj);
    assert(pi.take(base.len() as int) =~= base);
    reveal_strlit("/assign/");
    reveal_strlit("/unassign/");
    if i != j && pi == pj && endpoint_method(punishment_assignment_call(i, household_id, punishment_id, user_id)) == endpoint_method(
        punishment_assignment_call(j, household_id, punishment_id, user_id),
    ) {
        assert(pi.skip(base.len() as int) =~= si);
        assert(pj.skip(base.len() as int) =~= sj);
        assert(si.len() == sj.len());
    }
}

/// The calls on one chat message, numbered `0 <= k < 2` in this order: `UpdateChatMessage`, `DeleteChatMessage`.
pub open spec fn chat_message_call(k: int, household_id: String, message_id: String) -> Endpoint {
    if k == 0 {
        Endpoint::UpdateChatMessage { household_id, message_id }
    } else {
        Endpoint::DeleteChatMessage { household_id, message_id }
    }
}

/// The route below the shared resource path that each of the calls on one chat message takes.
spec fn chat_message_call_route(k: int, household_id: String, message_id: String) -> Seq<char> {
    if k == 0 {
        Seq::<char>::empty()
    } else {
        Seq::<char>::empty()
    }
}

/// Each of the calls on one chat message goes to a route below `/households/{household_id}/chat/{message_id}`, and two different ones never share
/// both method and path.
pub proof fn lemma_chat_message_calls_have_their_own_routes(household_id: String, message_id: String, i: int, j: int)
    requires
        0 <= i < 2,
        0 <= j < 2,
    ensures
        ("/households/"@ + household_id@ + "/chat/"@ + message_id@).is_prefix_of(endpoint_path(chat_message_call(i, household_id, message_id))),
        i != j ==> endpoint_method(chat_message_call(i, household_id, message_id)) != endpoint_method(
            chat_message_call(j, household_id, message_id),
        ) || endpoint_path(chat_message_call(i, household_id, message_id)) != endpoint_path(
            chat_message_call(j, household_id, message_id),
        ),
{
    let base = "/households/"@ + household_id@ + "/chat/"@ + message_id@;
    let pi = endpoint_path(chat_message_call(i, household_id, message_id));
    let pj = endpoint_path(chat_message_call(j, household_id, message_id));
    let si = chat_message_call_route(i, household_id, message_id);
    let sj = chat_message_call_route(j, household_id, message_id);
    assert(pi =~= base + si);
    assert(pj =~= base + sj);
    assert(pi.take(base.len() as int) =~= base);
    if i != j && pi == pj && endpoint_method(chat_message_call(i, household_id, message_id)) == endpoint_method(
        chat_message_call(j, household_id, message_id),
    ) {
        assert(pi.skip(base.len() as int) =~= si);
        assert(pj.skip(base.len() as int) =~= sj);
        assert(si.len() == sj.len());
    }
}

/// The calls on one note, numbered `0 <= k < 3` in this order: `GetNote`, `UpdateNote`, `DeleteNote`.
pub open spec fn note_call(k: int, household_id: String, note_id: String) -> Endpoint {
    if k == 0 {
        Endpoint::GetNote { household_id, note_id }
    } else if k == 1 {
        Endpoint::UpdateNote { household_id, note_id }
    } else {
        Endpoint::DeleteNote { household_id, note_id }
    }
}

/// The route below the shared resource path that each of the calls on one note takes.
spec fn note_call_route(k: int, household_id: String, note_id: String) -> Seq<char> {
    if k == 0 {
        Seq::<char>::empty()
    } else if k == 1 {
        Seq::<char>::empty()
    } else {
        Seq::<char>::empty()
    }
}

/// Each of the calls on one note goes to a route below `/households/{household_id}/notes/{note_id}`, and two different ones never share
/// both method and path.
pub proof fn lemma_note_calls_have_their_own_routes(household_id: String, note_id: String, i: int, j: int)
    requires
        0 <= i < 3,
        0 <= j < 3,
    ensures
        ("/households/"@ + household_id@ + "/notes/"@ + note_id@).is_prefix_of(endpoint_path(note_call(i, household_id, note_id))),
        i != j ==> endpoint_method(note_call(i, household_id, note_id)) != endpoint_method(
            note_call(j, household_id, note_id),
        ) || endpoint_path(note_call(i, household_id, note_id)) != endpoint_path(
            note_call(j, household_id, note_id),
        ),
{
    let base = "/households/"@ + household_id@ + "/notes/"@ + note_id@;
    let pi = endpoint_path(note_call(i, household_id, note_id));
    let pj = endpoint_path(note_call(j, household_id, note_id));
    let si = note_call_route(i, household_id, note_id);
    let sj = note_call_route(j, household_id, note_id);
    assert(pi =~= base + si);
    assert(pj =~= base + sj);
    assert(pi.take(base.len() as int) =~= base);
    if i != j && pi == pj && endpoint_method(note_call(i, household_id, note_id)) == endpoint_method(
        note_call(j, household_id, note_id),
    ) {
        assert(pi.skip(base.len() as int) =~= si);
        assert(pj.skip(base.len() as int) =~= sj);
        assert(si.len() == sj.len());
    }
}

/// The calls on one journal entry, numbered `0 <= k < 3` in this order: `GetJournalEntry`, `UpdateJournalEntry`, `DeleteJournalEntry`.
pub open spec fn journal_entry_call(k: int, household_id: String, entry_id: String) -> Endpoint {
    if k == 0 {
        Endpoint::GetJournalEntry { household_id, entry_id }
    } else if k == 1 {
        Endpoint::UpdateJournalEntry { household_id, entry_id }
    } else {
        Endpoint::DeleteJournalEntry { household_id, entry_id }
    }
}

/// The route below the shared resource path that each of the calls on one journal entry takes.
spec fn journal_entry_call_route(k: int, household_id: String, entry_id: String) -> Seq<char> {
    if k == 0 {
        Seq::<char>::empty()
    } else if k == 1 {
        Seq::<char>::empty()
    } else {
        Seq::<char>::empty()
    }
}

/// Each of the calls on one journal entry goes to a route below `/households/{household_id}/journal/{entry_id}`, and two different ones never share
/// both method and path.
pub proof fn lemma_journal_entry_calls_have_their_own_routes(household_id: String, entry_id: String, i: int, j: int)
    requires
        0 <= i < 3,
        0 <= j < 3,
    ensures
        ("/households/"@ + household_id@ + "/journal/"@ + entry_id@).is_prefix_of(endpoint_path(journal_entry_call(i, household_id, entry_id))),
        i != j ==> endpoint_method(journal_entry_call(i, household_id, entry_id)) != endpoint_method(
            journal_entry_call(j, household_id, entry_id),
        ) || endpoint_path(journal_entry_call(i, household_id, entry_id)) != endpoint_path(
            journal_entry_call(j, household_id, entry_id),
        ),
{
    let base = "/households/"@ + household_id@ + "/journal/"@ + entry_id@;
    let pi = endpoint_path(journal_entry_call(i, household_id, entry_id));
    let pj = endpoint_path(journal_entry_call(j, household_id, entry_id));
    let si = journal_entry_call_route(i, household_id, entry_id);
    let sj = journal_entry_call_route(j, household_id, entry_id);
    assert(pi =~= base + si);
    assert(pj =~= base + sj);
    assert(pi.take(base.len() as int) =~= base);
    if i != j && pi == pj && endpoint_method(journal_entry_call(i, household_id, entry_id)) == endpoint_method(
        journal_entry_call(j, household_id, entry_id),
    ) {
        assert(pi.skip(base.len() as int) =~= si);
        assert(pj.skip(base.len() as int) =~= sj);
        assert(si.len() == sj.len());
    }
}

/// The calls on one announcement, numbered `0 <= k < 2` in this order: `UpdateAnnouncement`, `DeleteAnnouncement`.
pub open spec fn announcement_call(k: int, household_id: String, announcement_id: String) -> Endpoint {
    if k == 0 {
        Endpoint::UpdateAnnouncement { household_id, announcement_id }
    } else {
        Endpoint::DeleteAnnouncement { household_id, announcement_id }
    }
}

/// The route below the shared resource path that each of the calls on one announcement takes.
spec fn announcement_call_route(k: int, household_id: String, announcement_id: String) -> Seq<char> {
    if k == 0 {
        Seq::<char>::empty()
    } else {
        Seq::<char>::empty()
    }
}

/// Each of the calls on one announcement goes to a route below `/households/{household_id}/announcements/{announcement_id}`, and two different ones never share
/// both method and path.
pub proof fn lemma_announcement_calls_have_their_own_routes(household_id: String, announcement_id: String, i: int, j: int)
    requires
        0 <= i < 2,
        0 <= j < 2,
    ensures
        ("/households/"@ + household_id@ + "/announcements/"@ + announcement_id@).is_prefix_of(endpoint_path(announcement_call(i, household_id, announcement_id))),
        i != j ==> endpoint_method(announcement_call(i, household_id, announcement_id)) != endpoint_method(
            announcement_call(j, household_id, announcement_id),
        ) || endpoint_path(announcement_call(i, household_id, announcement_id)) != endpoint_path(
            announcement_call(j, household_id, announcement_id),
        ),
{
    let base = "/households/"@ + household_id@ + "/announcements/"@ + announcement_id@;
    let pi = endpoint_path(announcement_call(i, household_id, announcement_id));
    let pj = endpoint_path(announcement_call(j, household_id, announcement_id));
    let si = announcement_call_route(i, household_id, announcement_id);
    let sj = announcement_call_route(j, household_id, announcement_id);
    assert(pi =~= base + si);
    assert(pj =~= base + sj);
    assert(pi.take(base.len() as int) =~= base);
    if i != j && pi == pj && endpoint_method(announcement_call(i, household_id, announcement_id)) == endpoint_method(
        announcement_call(j, household_id, announcement_id),
    ) {
        assert(pi.skip(base.len() as int) =~= si);
        assert(pj.skip(base.len() as int) =~= sj);
        assert(si.len() == sj.len());
    }
}

/// The calls on one task of the dashboard, numbered `0 <= k < 3` in this order: `IsTaskOnDashboard`, `AddTaskToDashboard`, `RemoveTaskFromDashboard`.
pub open spec fn dashboard_task_call(k: int, task_id: String) -> Endpoint {
    if k == 0 {
        Endpoint::IsTaskOnDashboard { task_id }
    } else if k == 1 {
        Endpoint::AddTaskToDashboard { task_id }
    } else {
        Endpoint::RemoveTaskFromDashboard { task_id }
    }
}

/// The route below the shared resource path that each of the calls on one task of the dashboard takes.
spec fn dashboard_task_call_route(k: int, task_id: String) -> Seq<char> {
    if k == 0 {
        Seq::<char>::empty()
    } else if k == 1 {
        Seq::<char>::empty()
    } else {
        Seq::<char>::empty()
    }
}

/// Each of the calls on one task of the dashboard goes to a route below `/dashboard/tasks/{task_id}`, and two different ones never share
/// both method and path.
pub proof fn lemma_dashboard_task_calls_have_their_own_routes(task_id: String, i: int, j: int)
    requires
        0 <= i < 3,
        0 <= j < 3,
    ensures
        ("/dashboard/tasks/"@ + task_id@).is_prefix_of(endpoint_path(dashboard_task_call(i, task_id))),
        i != j ==> endpoint_method(dashboard_task_call(i, task_id)) != endpoint_method(
            dashboard_task_call(j, task_id),
        ) || endpoint_path(dashboard_task_call(i, task_id)) != endpoint_path(
            dashboard_task_call(j, task_id),
        ),
{
    let base = "/dashboard/tasks/"@ + task_id@;
    let pi = endpoint_path(dashboard_task_call(i, task_id));
    let pj = endpoint_path(dashboard_task_call(j, task_id));
    let si = dashboard_task_call_route(i, task_id);
    let sj = dashboard_task_call_route(j, task_id);
    assert(pi =~= base + si);
    assert(pj =~= base + sj);
    assert(pi.take(base.len() as int) =~= base);
    if i != j && pi == pj && endpoint_method(dashboard_task_call(i, task_id)) == endpoint_method(
        dashboard_task_call(j, task_id),
    ) {
        assert(pi.skip(base.len() as int) =~= si);
        assert(pj.skip(base.len() as int) =~= sj);
        assert(si.len() == sj.len());
    }
}

/// Only registering and logging in go out without the session's token; every other call
/// carries it.
pub proof fn lemma_only_sign_in_goes_without_token(e: Endpoint)
    ensures
        !endpoint_auth(e) <==> (e is Register || e is Login),
{
}

} // verus!
