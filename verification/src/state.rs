//! Dialog state of a chat: which input the bot is waiting for next.

use vstd::prelude::*;
use crate::model::ModifyParam;

verus! {

#[derive(Clone, Default)]
/// What the next text message of a chat answers.
pub enum State {
    #[default]
    Idle,
    AwaitingName,
    AwaitingExpiry {
        name: String,
        recreate: bool,
    },
    AwaitingCustomExpiry {
        name: String,
        recreate: bool,
    },
    AwaitingPsk {
        name: String,
        expires: Option<String>,
        recreate: bool,
    },
    AwaitingAddServer {
        name: String,
        expires: Option<String>,
        psk: bool,
        group: Option<i64>,
    },
    AwaitingModifyParam {
        name: String,
    },
    AwaitingModifyValue {
        name: String,
        param: ModifyParam,
    },
    // Bulk generation keeps its own states apart from the single-client ones.
    AwaitingBulkPrefix,
    AwaitingBulkCount {
        prefix: String,
    },
    AwaitingBulkExpiry {
        prefix: String,
        count: usize,
    },
    AwaitingBulkCustomExpiry {
        prefix: String,
        count: usize,
    },
    AwaitingBulkPsk {
        prefix: String,
        count: usize,
        expires: Option<String>,
    },
    AwaitingBulkServer {
        prefix: String,
        count: usize,
        expires: Option<String>,
        psk: bool,
    },
    // Owner dialogs about groups.
    AwaitingGroupName,
    AwaitingGroupRename {
        id: i64,
    },
    AwaitingGroupQuota {
        id: i64,
    },
    AwaitingGroupAdminId {
        id: i64,
    },
    AwaitingPaymentProof {
        id: i64,
    },
    AwaitingPaymentReject {
        id: i64,
    },
    AwaitingClientOwner {
        name: String,
    },
    AwaitingAdminExpiry {
        name: String,
    },
    AwaitingDeviceLabel {
        name: String,
    },
    AwaitingKeyTransfer {
        name: String,
    },
    AwaitingTopupAmount,
    AwaitingPaymentInstructions,
    AwaitingAcquiringUrl,
    AwaitingPortalDomain,
    AwaitingTariffPricesRub,
    AwaitingTariffPricesStars,
    AwaitingReferralPercent,
    AwaitingPartnerDetails,
    AwaitingPartnerToken {
        partner_id: i64,
    },
    AwaitingSupportMessage {
        category: String,
        ticket_id: Option<i64>,
    },
    AwaitingSupportReply {
        ticket_id: i64,
        user_id: i64,
    },
    AwaitingBroadcast {
        audience: String,
    },
    AwaitingBroadcastConfirm {
        source_chat_id: i64,
        source_message_id: i32,
        audience: String,
    },
    AwaitingAdminSearch,
    AwaitingStaffRole {
        operation: String,
    },
    AwaitingBulkManage {
        operation: String,
    },
    AwaitingBulkConfirm {
        operation: String,
        prefix: String,
        names: Vec<String>,
        seconds: Option<i64>,
    },
    AwaitingUserBalance {
        user_id: i64,
    },
    AwaitingUserDiscount {
        user_id: i64,
    },
    AwaitingUserNote {
        user_id: i64,
    },
    AwaitingClientNote {
        name: String,
    },
    AwaitingPromoCode {
        kind: String,
    },
    AwaitingCustomerPromo,
    AwaitingLegacyRequest,
    AwaitingLegacyReject {
        id: i64,
    },
    AwaitingLegacyPrice,
    AwaitingServerAdd,
    AwaitingServerWizardName,
    AwaitingServerWizardAddress {
        name: String,
    },
    AwaitingServerWizardDetails {
        name: String,
        public_ip: String,
    },
    AwaitingServerBilling {
        server_id: i64,
    },
    AwaitingServerPassport {
        server_id: i64,
    },
    AwaitingServerField {
        server_id: i64,
        field: String,
    },
    AwaitingServerDeployCredentials {
        server_id: i64,
    },
    AwaitingPanelCredentials {
        server_id: i64,
    },
    AwaitingMirrorToken,
    AwaitingLocalMigrationConfirm {
        operation: String,
    },
}


/// A dialog state with its texts taken by their characters.
pub enum StateView {
    Idle,
    AwaitingName,
    AwaitingExpiry { name: Seq<char>, recreate: bool },
    AwaitingCustomExpiry { name: Seq<char>, recreate: bool },
    AwaitingPsk { name: Seq<char>, expires: Option<Seq<char>>, recreate: bool },
    AwaitingAddServer { name: Seq<char>, expires: Option<Seq<char>>, psk: bool, group: Option<i64> },
    AwaitingModifyParam { name: Seq<char> },
    AwaitingModifyValue { name: Seq<char>, param: ModifyParam },
    AwaitingBulkPrefix,
    AwaitingBulkCount { prefix: Seq<char> },
    AwaitingBulkExpiry { prefix: Seq<char>, count: usize },
    AwaitingBulkCustomExpiry { prefix: Seq<char>, count: usize },
    AwaitingBulkPsk { prefix: Seq<char>, count: usize, expires: Option<Seq<char>> },
    AwaitingBulkServer { prefix: Seq<char>, count: usize, expires: Option<Seq<char>>, psk: bool },
    AwaitingGroupName,
    AwaitingGroupRename { id: i64 },
    AwaitingGroupQuota { id: i64 },
    AwaitingGroupAdminId { id: i64 },
    AwaitingPaymentProof { id: i64 },
    AwaitingPaymentReject { id: i64 },
    AwaitingClientOwner { name: Seq<char> },
    AwaitingAdminExpiry { name: Seq<char> },
    AwaitingDeviceLabel { name: Seq<char> },
    AwaitingKeyTransfer { name: Seq<char> },
    AwaitingTopupAmount,
    AwaitingPaymentInstructions,
    AwaitingAcquiringUrl,
    AwaitingPortalDomain,
    AwaitingTariffPricesRub,
    AwaitingTariffPricesStars,
    AwaitingReferralPercent,
    AwaitingPartnerDetails,
    AwaitingPartnerToken { partner_id: i64 },
    AwaitingSupportMessage { category: Seq<char>, ticket_id: Option<i64> },
    AwaitingSupportReply { ticket_id: i64, user_id: i64 },
    AwaitingBroadcast { audience: Seq<char> },
    AwaitingBroadcastConfirm { source_chat_id: i64, source_message_id: i32, audience: Seq<char> },
    AwaitingAdminSearch,
    AwaitingStaffRole { operation: Seq<char> },
    AwaitingBulkManage { operation: Seq<char> },
    AwaitingBulkConfirm { operation: Seq<char>, prefix: Seq<char>, names: Seq<Seq<char>>, seconds: Option<i64> },
    AwaitingUserBalance { user_id: i64 },
    AwaitingUserDiscount { user_id: i64 },
    AwaitingUserNote { user_id: i64 },
    AwaitingClientNote { name: Seq<char> },
    AwaitingPromoCode { kind: Seq<char> },
    AwaitingCustomerPromo,
    AwaitingLegacyRequest,
    AwaitingLegacyReject { id: i64 },
    AwaitingLegacyPrice,
    AwaitingServerAdd,
    AwaitingServerWizardName,
    AwaitingServerWizardAddress { name: Seq<char> },
    AwaitingServerWizardDetails { name: Seq<char>, public_ip: Seq<char> },
    AwaitingServerBilling { server_id: i64 },
    AwaitingServerPassport { server_id: i64 },
    AwaitingServerField { server_id: i64, field: Seq<char> },
    AwaitingServerDeployCredentials { server_id: i64 },
    AwaitingPanelCredentials { server_id: i64 },
    AwaitingMirrorToken,
    AwaitingLocalMigrationConfirm { operation: Seq<char> },
}

impl View for State {
    type V = StateView;

    open spec fn view(&self) -> StateView {
        match self {
            State::Idle => StateView::Idle,
            State::AwaitingName => StateView::AwaitingName,
            State::AwaitingExpiry { name, recreate } => StateView::AwaitingExpiry { name: name@, recreate: *recreate },
            State::AwaitingCustomExpiry { name, recreate } => StateView::AwaitingCustomExpiry { name: name@, recreate: *recreate },
            State::AwaitingPsk { name, expires, recreate } => StateView::AwaitingPsk { name: name@, expires: (match expires { Some(s) => Some(s@), None => None }), recreate: *recreate },
            State::AwaitingAddServer { name, expires, psk, group } => StateView::AwaitingAddServer { name: name@, expires: (match expires { Some(s) => Some(s@), None => None }), psk: *psk, group: *group },
            State::AwaitingModifyParam { name } => StateView::AwaitingModifyParam { name: name@ },
            State::AwaitingModifyValue { name, param } => StateView::AwaitingModifyValue { name: name@, param: *param },
            State::AwaitingBulkPrefix => StateView::AwaitingBulkPrefix,
            State::AwaitingBulkCount { prefix } => StateView::AwaitingBulkCount { prefix: prefix@ },
            State::AwaitingBulkExpiry { prefix, count } => StateView::AwaitingBulkExpiry { prefix: prefix@, count: *count },
            State::AwaitingBulkCustomExpiry { prefix, count } => StateView::AwaitingBulkCustomExpiry { prefix: prefix@, count: *count },
            State::AwaitingBulkPsk { prefix, count, expires } => StateView::AwaitingBulkPsk { prefix: prefix@, count: *count, expires: (match expires { Some(s) => Some(s@), None => None }) },
            State::AwaitingBulkServer { prefix, count, expires, psk } => StateView::AwaitingBulkServer { prefix: prefix@, count: *count, expires: (match expires { Some(s) => Some(s@), None => None }), psk: *psk },
            State::AwaitingGroupName => StateView::AwaitingGroupName,
            State::AwaitingGroupRename { id } => StateView::AwaitingGroupRename { id: *id },
            State::AwaitingGroupQuota { id } => StateView::AwaitingGroupQuota { id: *id },
            State::AwaitingGroupAdminId { id } => StateView::AwaitingGroupAdminId { id: *id },
            State::AwaitingPaymentProof { id } => StateView::AwaitingPaymentProof { id: *id },
            State::AwaitingPaymentReject { id } => StateView::AwaitingPaymentReject { id: *id },
            State::AwaitingClientOwner { name } => StateView::AwaitingClientOwner { name: name@ },
            State::AwaitingAdminExpiry { name } => StateView::AwaitingAdminExpiry { name: name@ },
            State::AwaitingDeviceLabel { name } => StateView::AwaitingDeviceLabel { name: name@ },
            State::AwaitingKeyTransfer { name } => StateView::AwaitingKeyTransfer { name: name@ },
            State::AwaitingTopupAmount => StateView::AwaitingTopupAmount,
            State::AwaitingPaymentInstructions => StateView::AwaitingPaymentInstructions,
            State::AwaitingAcquiringUrl => StateView::AwaitingAcquiringUrl,
            State::AwaitingPortalDomain => StateView::AwaitingPortalDomain,
            State::AwaitingTariffPricesRub => StateView::AwaitingTariffPricesRub,
            State::AwaitingTariffPricesStars => StateView::AwaitingTariffPricesStars,
            State::AwaitingReferralPercent => StateView::AwaitingReferralPercent,
            State::AwaitingPartnerDetails => StateView::AwaitingPartnerDetails,
            State::AwaitingPartnerToken { partner_id } => StateView::AwaitingPartnerToken { partner_id: *partner_id },
            State::AwaitingSupportMessage { category, ticket_id } => StateView::AwaitingSupportMessage { category: category@, ticket_id: *ticket_id },
            State::AwaitingSupportReply { ticket_id, user_id } => StateView::AwaitingSupportReply { ticket_id: *ticket_id, user_id: *user_id },
            State::AwaitingBroadcast { audience } => StateView::AwaitingBroadcast { audience: audience@ },
            State::AwaitingBroadcastConfirm { source_chat_id, source_message_id, audience } => StateView::AwaitingBroadcastConfirm { source_chat_id: *source_chat_id, source_message_id: *source_message_id, audience: audience@ },
            State::AwaitingAdminSearch => StateView::AwaitingAdminSearch,
            State::AwaitingStaffRole { operation } => StateView::AwaitingStaffRole { operation: operation@ },
            State::AwaitingBulkManage { operation } => StateView::AwaitingBulkManage { operation: operation@ },
            State::AwaitingBulkConfirm { operation, prefix, names, seconds } => StateView::AwaitingBulkConfirm { operation: operation@, prefix: prefix@, names: names@.map_values(|s: String| s@), seconds: *seconds },
            State::AwaitingUserBalance { user_id } => StateView::AwaitingUserBalance { user_id: *user_id },
            State::AwaitingUserDiscount { user_id } => StateView::AwaitingUserDiscount { user_id: *user_id },
            State::AwaitingUserNote { user_id } => StateView::AwaitingUserNote { user_id: *user_id },
            State::AwaitingClientNote { name } => StateView::AwaitingClientNote { name: name@ },
            State::AwaitingPromoCode { kind } => StateView::AwaitingPromoCode { kind: kind@ },
            State::AwaitingCustomerPromo => StateView::AwaitingCustomerPromo,
            State::AwaitingLegacyRequest => StateView::AwaitingLegacyRequest,
            State::AwaitingLegacyReject { id } => StateView::AwaitingLegacyReject { id: *id },
            State::AwaitingLegacyPrice => StateView::AwaitingLegacyPrice,
            State::AwaitingServerAdd => StateView::AwaitingServerAdd,
            State::AwaitingServerWizardName => StateView::AwaitingServerWizardName,
            State::AwaitingServerWizardAddress { name } => StateView::AwaitingServerWizardAddress { name: name@ },
            State::AwaitingServerWizardDetails { name, public_ip } => StateView::AwaitingServerWizardDetails { name: name@, public_ip: public_ip@ },
            State::AwaitingServerBilling { server_id } => StateView::AwaitingServerBilling { server_id: *server_id },
            State::AwaitingServerPassport { server_id } => StateView::AwaitingServerPassport { server_id: *server_id },
            State::AwaitingServerField { server_id, field } => StateView::AwaitingServerField { server_id: *server_id, field: field@ },
            State::AwaitingServerDeployCredentials { server_id } => StateView::AwaitingServerDeployCredentials { server_id: *server_id },
            State::AwaitingPanelCredentials { server_id } => StateView::AwaitingPanelCredentials { server_id: *server_id },
            State::AwaitingMirrorToken => StateView::AwaitingMirrorToken,
            State::AwaitingLocalMigrationConfirm { operation } => StateView::AwaitingLocalMigrationConfirm { operation: operation@ },
        }
    }
}

} // verus!
