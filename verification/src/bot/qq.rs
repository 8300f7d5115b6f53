//! What the chat bot decides: whom it answers, and how a login goes on.
//!
//! The bot's connection to the chat service lives outside this crate. Here are
//! only its decisions, as functions from what the service reported to what the
//! bot does next.

use vstd::prelude::*;

verus! {

/// The account number `uin` read as an unsigned number: itself where it is not
/// negative, and two to the power of 64 more where it is.
pub open spec fn unsigned_uin(uin: i64) -> u64 {
    if uin >= 0 {
        uin as u64
    } else {
        (uin + 0x1_0000_0000_0000_0000) as u64
    }
}

/// The account number `uin` read as an unsigned number.
pub fn uin_to_u64(uin: i64) -> (res: u64)
    ensures
        res == unsigned_uin(uin),
{
    if uin >= 0 {
        uin as u64
    } else {
        u64::MAX - ((-1 - uin) as u64)
    }
}

/// Something the chat service reported to the bot.
#[derive(Debug, Clone, Copy, PartialEq, Eq, Structural)]
pub enum BotEvent {
    /// A message in the group `group_code`, sent by the account `from_uin`.
    GroupMessage { group_code: i64, from_uin: i64 },
    /// Anything else: private messages, requests, notices.
    Other,
}

/// What the bot does about an event.
#[derive(Debug, Clone, Copy, PartialEq, Eq, Structural)]
pub enum BotReaction {
    /// Send the message back to the group it came from.
    EchoToGroup(i64),
    /// Take note and do nothing.
    Nothing,
}

/// How far a login has come, as the chat service reports it.
#[derive(Debug, Clone, Copy, PartialEq, Eq, Structural)]
pub enum LoginStatus {
    Success,
    DeviceLocked,
    NeedCaptcha,
    DeviceLockLogin,
    AccountFrozen,
    TooManySMSRequest,
    UnknownStatus,
}

/// What the bot does next in a login.
#[derive(Debug, Clone, Copy, PartialEq, Eq, Structural)]
pub enum LoginStep {
    /// The login is through: go on to serve.
    Proceed,
    /// The device has to be unlocked by hand: show how, and stop for good.
    StopForUnlock,
    /// Ask the operator for a captcha ticket and submit it.
    SubmitTicket,
    /// Log in again through the device lock.
    LoginWithDeviceLock,
    /// The login cannot succeed: give up with an error.
    GiveUp,
}

/// What the bot does next in a login that stands at `status`.
pub open spec fn next_login_step(status: LoginStatus) -> LoginStep {
    match status {
        LoginStatus::Success => LoginStep::Proceed,
        LoginStatus::DeviceLocked => LoginStep::StopForUnlock,
        LoginStatus::NeedCaptcha => LoginStep::SubmitTicket,
        LoginStatus::DeviceLockLogin => LoginStep::LoginWithDeviceLock,
        LoginStatus::AccountFrozen => LoginStep::GiveUp,
        LoginStatus::TooManySMSRequest => LoginStep::GiveUp,
        LoginStatus::UnknownStatus => LoginStep::GiveUp,
    }
}

/// Whether a login that stands at `status` will hear from the service again.
pub open spec fn login_goes_on(status: LoginStatus) -> bool {
    status == LoginStatus::NeedCaptcha || status == LoginStatus::DeviceLockLogin
}

/// What the bot does next in a login that stands at `status`. Only the two
/// steps that send something to the service lead to another status.
pub fn login_step(status: LoginStatus) -> (res: LoginStep)
    ensures
        res == next_login_step(status),
        login_goes_on(status) <==> (res == LoginStep::SubmitTicket || res
            == LoginStep::LoginWithDeviceLock),
{
    match status {
        LoginStatus::Success => LoginStep::Proceed,
        LoginStatus::DeviceLocked => LoginStep::StopForUnlock,
        LoginStatus::NeedCaptcha => LoginStep::SubmitTicket,
        LoginStatus::DeviceLockLogin => LoginStep::LoginWithDeviceLock,
        LoginStatus::AccountFrozen => LoginStep::GiveUp,
        LoginStatus::TooManySMSRequest => LoginStep::GiveUp,
        LoginStatus::UnknownStatus => LoginStep::GiveUp,
    }
}

/// The bot's settings: whose messages it answers, and in which groups it may
/// speak.
#[derive(Debug, PartialEq, Eq)]
pub struct FineHandler {
    super_users: Vec<u64>,
    allowed_groups: Vec<u64>,
}

impl FineHandler {
    /// The accounts whose messages the bot answers.
    pub closed spec fn super_users(&self) -> Seq<u64> {
        self.super_users@
    }

    /// The groups in which the bot may speak.
    pub closed spec fn allowed_groups(&self) -> Seq<u64> {
        self.allowed_groups@
    }

    /// What the bot does about `event`: a group message from a super user is
    /// sent back to its group, anything else is let pass.
    pub open spec fn reaction(&self, event: BotEvent) -> BotReaction {
        match event {
            BotEvent::GroupMessage { group_code, from_uin } => {
                if self.super_users().contains(unsigned_uin(from_uin)) {
                    BotReaction::EchoToGroup(group_code)
                } else {
                    BotReaction::Nothing
                }
            },
            BotEvent::Other => BotReaction::Nothing,
        }
    }

    pub fn new(super_users: Vec<u64>, allowed_groups: Vec<u64>) -> (res: Self)
        ensures
            res.super_users() == super_users@,
            res.allowed_groups() == allowed_groups@,
    {
        Self { super_users, allowed_groups }
    }

    /// Whether the account `uin` is one of the super users.
    pub fn is_super_user(&self, uin: i64) -> (res: bool)
        ensures
            res == self.super_users().contains(unsigned_uin(uin)),
    {
        let wanted: u64 = uin_to_u64(uin);
        let mut i: usize = 0;
        while i < self.super_users.len()
            invariant
                i <= self.super_users.len(),
                wanted == unsigned_uin(uin),
                forall|j: int| 0 <= j < i ==> self.super_users[j] != wanted,
            decreases self.super_users.len() - i,
        {
            if self.super_users[i] == wanted {
                return true;
            }
            i += 1;
        }
        false
    }

    /// Decides what the bot does about `event`: a group message whose sender is
    /// a super user is sent back to its group, anything else is let pass.
    pub fn handle(&self, event: BotEvent) -> (res: BotReaction)
        ensures
            res == self.reaction(event),
    {
        match event {
            BotEvent::GroupMessage { group_code, from_uin } => {
                if self.is_super_user(from_uin) {
                    BotReaction::EchoToGroup(group_code)
                } else {
                    BotReaction::Nothing
                }
            },
            BotEvent::Other => BotReaction::Nothing,
        }
    }
}

} // verus!
