//! The envelope that carries every request and reply, and its tags.

pub mod common;
pub mod ecosystem;

use crate::error::{LedgerError, LedgerErrorView};
use crate::message::common::{CommonErrorResponseData, CommonSuccessResponseData};
use crate::message::ecosystem::{
    AlterUserCreditRequestData, AlterUserCreditResponseData, CreditChangeView,
    GetUserCreditRequestData, GetUserCreditResponseData, SetUserCreditRequestData,
    SetUserCreditResponseData, TransferCreditRequestData, TransferCreditResponseData,
    TransferOutcomeView, TransferView, UserAccountView, UserCreditView,
};
use vstd::prelude::*;
use vstd::std_specs::convert::FromSpecImpl;

verus! {

/// The tag of a message: which request or reply its payload is.
#[derive(Debug, Clone, Copy, PartialEq, Eq, Structural)]
pub enum MessageType {
    CommonSuccessResponse,
    CommonErrorResponse,
    EcosytemSetUserCreditRequest,
    EcosytemSetUserCreditResponse,
    EcosytemGetUserCreditRequest,
    EcosytemGetUserCreditResponse,
    EcosytemAlterUserCreditRequest,
    EcosytemAlterUserCreditResponse,
    EcosytemTransferUserCreditRequest,
    EcosytemTransferUserCreditResponse,
}

impl MessageType {
    /// The text that stands for this tag on the wire.
    pub open spec fn tag_text(self) -> Seq<char> {
        match self {
            MessageType::CommonSuccessResponse => "common_success_response"@,
            MessageType::CommonErrorResponse => "common_error_response"@,
            MessageType::EcosytemSetUserCreditRequest => "set_credit_request"@,
            MessageType::EcosytemSetUserCreditResponse => "set_credit_response"@,
            MessageType::EcosytemGetUserCreditRequest => "get_credit_request"@,
            MessageType::EcosytemGetUserCreditResponse => "get_credit_response"@,
            MessageType::EcosytemAlterUserCreditRequest => "alter_credit_request"@,
            MessageType::EcosytemAlterUserCreditResponse => "alter_credit_response"@,
            MessageType::EcosytemTransferUserCreditRequest => "transfer_credit_request"@,
            MessageType::EcosytemTransferUserCreditResponse => "transfer_credit_response"@,
        }
    }

    /// Whether this tag marks a request (and not a reply).
    pub open spec fn is_request(self) -> bool {
        self == MessageType::EcosytemSetUserCreditRequest
            || self == MessageType::EcosytemGetUserCreditRequest
            || self == MessageType::EcosytemAlterUserCreditRequest
            || self == MessageType::EcosytemTransferUserCreditRequest
    }

    /// The tag of the successful reply to a request with this tag.
    pub open spec fn response_type(self) -> MessageType
        recommends
            self.is_request(),
    {
        match self {
            MessageType::EcosytemSetUserCreditRequest => MessageType::EcosytemSetUserCreditResponse,
            MessageType::EcosytemGetUserCreditRequest => MessageType::EcosytemGetUserCreditResponse,
            MessageType::EcosytemAlterUserCreditRequest => {
                MessageType::EcosytemAlterUserCreditResponse
            },
            MessageType::EcosytemTransferUserCreditRequest => {
                MessageType::EcosytemTransferUserCreditResponse
            },
            _ => MessageType::CommonErrorResponse,
        }
    }

    /// The text that stands for this tag on the wire.
    pub fn tag(&self) -> (res: &'static str)
        ensures
            res@ == self.tag_text(),
    {
        match self {
            MessageType::CommonSuccessResponse => "common_success_response",
            MessageType::CommonErrorResponse => "common_error_response",
            MessageType::EcosytemSetUserCreditRequest => "set_credit_request",
            MessageType::EcosytemSetUserCreditResponse => "set_credit_response",
            MessageType::EcosytemGetUserCreditRequest => "get_credit_request",
            MessageType::EcosytemGetUserCreditResponse => "get_credit_response",
            MessageType::EcosytemAlterUserCreditRequest => "alter_credit_request",
            MessageType::EcosytemAlterUserCreditResponse => "alter_credit_response",
            MessageType::EcosytemTransferUserCreditRequest => "transfer_credit_request",
            MessageType::EcosytemTransferUserCreditResponse => "transfer_credit_response",
        }
    }

    /// Reads a tag from its wire text: the tag whose text it is, or `None` where it
    /// is the text of no tag.
    pub fn from_tag(text: &str) -> (res: Option<MessageType>)
        ensures
            match res {
                Some(t) => t.tag_text() == text@,
                None => forall|t: MessageType| t.tag_text() != text@,
            },
    {
        let all = [
            MessageType::CommonSuccessResponse,
            MessageType::CommonErrorResponse,
            MessageType::EcosytemSetUserCreditRequest,
            MessageType::EcosytemSetUserCreditResponse,
            MessageType::EcosytemGetUserCreditRequest,
            MessageType::EcosytemGetUserCreditResponse,
            MessageType::EcosytemAlterUserCreditRequest,
            MessageType::EcosytemAlterUserCreditResponse,
            MessageType::EcosytemTransferUserCreditRequest,
            MessageType::EcosytemTransferUserCreditResponse,
        ];
        let wanted = text.to_owned();
        let mut i: usize = 0;
        while i < 10
            invariant
                i <= 10,
                all@.len() == 10,
                wanted@ == text@,
                forall|j: int| 0 <= j < i ==> all@[j].tag_text() != text@,
            decreases 10 - i,
        {
            let candidate = all[i];
            if candidate.tag().to_owned() == wanted {
                return Some(candidate);
            }
            i += 1;
        }
        assert forall|t: MessageType| t.tag_text() != text@ by {
            let j = choose|j: int| 0 <= j < 10 && all@[j] == t;
            assert(all@[j].tag_text() != text@);
        }
        None
    }
}

/// The length of a tag's wire text and its first character: together they
/// tell every tag from every other.
pub open spec fn tag_mark(t: MessageType) -> (nat, char) {
    match t {
        MessageType::CommonSuccessResponse => (23, 'c'),
        MessageType::CommonErrorResponse => (21, 'c'),
        MessageType::EcosytemSetUserCreditRequest => (18, 's'),
        MessageType::EcosytemSetUserCreditResponse => (19, 's'),
        MessageType::EcosytemGetUserCreditRequest => (18, 'g'),
        MessageType::EcosytemGetUserCreditResponse => (19, 'g'),
        MessageType::EcosytemAlterUserCreditRequest => (20, 'a'),
        MessageType::EcosytemAlterUserCreditResponse => (21, 'a'),
        MessageType::EcosytemTransferUserCreditRequest => (23, 't'),
        MessageType::EcosytemTransferUserCreditResponse => (24, 't'),
    }
}

/// The wire text of a tag has the length and the first character of its mark.
pub proof fn lemma_tag_mark(t: MessageType)
    ensures
        t.tag_text().len() == tag_mark(t).0,
        t.tag_text()[0] == tag_mark(t).1,
{
    reveal_strlit("common_success_response");
    reveal_strlit("common_error_response");
    reveal_strlit("set_credit_request");
    reveal_strlit("set_credit_response");
    reveal_strlit("get_credit_request");
    reveal_strlit("get_credit_response");
    reveal_strlit("alter_credit_request");
    reveal_strlit("alter_credit_response");
    reveal_strlit("transfer_credit_request");
    reveal_strlit("transfer_credit_response");
}

/// No two tags share a wire text, so a text is read back as one tag at most.
pub proof fn law_tags_are_distinct(a: MessageType, b: MessageType)
    requires
        a.tag_text() == b.tag_text(),
    ensures
        a == b,
{
    lemma_tag_mark(a);
    lemma_tag_mark(b);
}

/// The payload of a message: one shape for each request and each reply.
#[derive(Debug, PartialEq, Eq)]
pub enum MessageData {
    CommonSuccess(CommonSuccessResponseData),
    CommonError(CommonErrorResponseData),
    SetUserCreditRequest(SetUserCreditRequestData),
    SetUserCreditResponse(SetUserCreditResponseData),
    GetUserCreditRequest(GetUserCreditRequestData),
    GetUserCreditResponse(GetUserCreditResponseData),
    AlterUserCreditRequest(AlterUserCreditRequestData),
    AlterUserCreditResponse(AlterUserCreditResponseData),
    TransferCreditRequest(TransferCreditRequestData),
    TransferCreditResponse(TransferCreditResponseData),
}

/// Mathematical value of a payload.
pub enum MessageDataView {
    CommonSuccess(Seq<char>),
    CommonError(Seq<char>),
    SetUserCreditRequest(CreditChangeView),
    SetUserCreditResponse(UserCreditView),
    GetUserCreditRequest(Seq<char>),
    GetUserCreditResponse(UserAccountView),
    AlterUserCreditRequest(CreditChangeView),
    AlterUserCreditResponse(UserCreditView),
    TransferCreditRequest(TransferView),
    TransferCreditResponse(TransferOutcomeView),
}

impl View for MessageData {
    type V = MessageDataView;

    open spec fn view(&self) -> MessageDataView {
        match self {
            MessageData::CommonSuccess(d) => MessageDataView::CommonSuccess(d@),
            MessageData::CommonError(d) => MessageDataView::CommonError(d@),
            MessageData::SetUserCreditRequest(d) => MessageDataView::SetUserCreditRequest(d@),
            MessageData::SetUserCreditResponse(d) => MessageDataView::SetUserCreditResponse(d@),
            MessageData::GetUserCreditRequest(d) => MessageDataView::GetUserCreditRequest(d@),
            MessageData::GetUserCreditResponse(d) => MessageDataView::GetUserCreditResponse(d@),
            MessageData::AlterUserCreditRequest(d) => MessageDataView::AlterUserCreditRequest(d@),
            MessageData::AlterUserCreditResponse(d) => MessageDataView::AlterUserCreditResponse(d@),
            MessageData::TransferCreditRequest(d) => MessageDataView::TransferCreditRequest(d@),
            MessageData::TransferCreditResponse(d) => MessageDataView::TransferCreditResponse(d@),
        }
    }
}

impl MessageDataView {
    /// The tag that a payload of this shape travels under.
    pub open spec fn message_type(self) -> MessageType {
        match self {
            MessageDataView::CommonSuccess(_) => MessageType::CommonSuccessResponse,
            MessageDataView::CommonError(_) => MessageType::CommonErrorResponse,
            MessageDataView::SetUserCreditRequest(_) => MessageType::EcosytemSetUserCreditRequest,
            MessageDataView::SetUserCreditResponse(_) => MessageType::EcosytemSetUserCreditResponse,
            MessageDataView::GetUserCreditRequest(_) => MessageType::EcosytemGetUserCreditRequest,
            MessageDataView::GetUserCreditResponse(_) => MessageType::EcosytemGetUserCreditResponse,
            MessageDataView::AlterUserCreditRequest(_) => {
                MessageType::EcosytemAlterUserCreditRequest
            },
            MessageDataView::AlterUserCreditResponse(_) => {
                MessageType::EcosytemAlterUserCreditResponse
            },
            MessageDataView::TransferCreditRequest(_) => {
                MessageType::EcosytemTransferUserCreditRequest
            },
            MessageDataView::TransferCreditResponse(_) => {
                MessageType::EcosytemTransferUserCreditResponse
            },
        }
    }
}

impl MessageData {
    /// The tag that this payload travels under.
    pub fn message_type(&self) -> (res: MessageType)
        ensures
            res == self@.message_type(),
    {
        match self {
            MessageData::CommonSuccess(_) => MessageType::CommonSuccessResponse,
            MessageData::CommonError(_) => MessageType::CommonErrorResponse,
            MessageData::SetUserCreditRequest(_) => MessageType::EcosytemSetUserCreditRequest,
            MessageData::SetUserCreditResponse(_) => MessageType::EcosytemSetUserCreditResponse,
            MessageData::GetUserCreditRequest(_) => MessageType::EcosytemGetUserCreditRequest,
            MessageData::GetUserCreditResponse(_) => MessageType::EcosytemGetUserCreditResponse,
            MessageData::AlterUserCreditRequest(_) => MessageType::EcosytemAlterUserCreditRequest,
            MessageData::AlterUserCreditResponse(_) => MessageType::EcosytemAlterUserCreditResponse,
            MessageData::TransferCreditRequest(_) => MessageType::EcosytemTransferUserCreditRequest,
            MessageData::TransferCreditResponse(_) => {
                MessageType::EcosytemTransferUserCreditResponse
            },
        }
    }
}

/// The envelope of every request and reply: a tag and the payload it announces.
#[derive(Debug, PartialEq, Eq)]
pub struct Message {
    pub message_type: MessageType,
    pub data: MessageData,
}

/// Mathematical value of a message.
pub struct MessageView {
    pub message_type: MessageType,
    pub data: MessageDataView,
}

impl View for Message {
    type V = MessageView;

    open spec fn view(&self) -> MessageView {
        MessageView { message_type: self.message_type, data: self.data@ }
    }
}

impl MessageView {
    /// The message that carries `data` under the tag that belongs to it.
    pub open spec fn carrying(data: MessageDataView) -> MessageView {
        MessageView { message_type: data.message_type(), data }
    }

    /// The tag announces the payload that the message holds.
    pub open spec fn is_coherent(self) -> bool {
        self.message_type == self.data.message_type()
    }

    /// The reply that reports the failure `e`.
    pub open spec fn error(e: LedgerErrorView) -> MessageView {
        MessageView::carrying(MessageDataView::CommonError(e.message_text()))
    }
}

impl From<CommonErrorResponseData> for Message {
    fn from(data: CommonErrorResponseData) -> (res: Self) {
        Message { message_type: MessageType::CommonErrorResponse, data: MessageData::CommonError(data) }
    }
}

impl FromSpecImpl<CommonErrorResponseData> for Message {
    open spec fn obeys_from_spec() -> bool {
        true
    }

    open spec fn from_spec(data: CommonErrorResponseData) -> Self {
        Message { message_type: MessageType::CommonErrorResponse, data: MessageData::CommonError(data) }
    }
}

impl From<redis::RedisError> for Message {
    /// A failure of the redis client is reported as any other failure: the
    /// common error reply, with the client's own description as its text.
    fn from(err: redis::RedisError) -> (res: Self)
        ensures
            res@.message_type == MessageType::CommonErrorResponse,
            res@.data is CommonError,
    {
        let failure = LedgerError::from(err);
        Message::error(&failure)
    }
}

/// The text of a redis failure is no function of anything that can be stated
/// here, so the conversion answers to its own contract and to no spec function.
impl FromSpecImpl<redis::RedisError> for Message {
    open spec fn obeys_from_spec() -> bool {
        false
    }

    open spec fn from_spec(err: redis::RedisError) -> Self {
        arbitrary()
    }
}

impl Message {
    /// The message that carries `data` under the tag that belongs to it.
    pub fn carrying(data: MessageData) -> (res: Message)
        ensures
            res@ == MessageView::carrying(data@),
            res.data == data,
    {
        Message { message_type: data.message_type(), data }
    }

    /// The reply that reports the failure `e`: the common error reply with the
    /// text of `e`.
    pub fn error(e: &LedgerError) -> (res: Message)
        ensures
            res@ == MessageView::error(e@),
    {
        Message::from(CommonErrorResponseData::from(e.message()))
    }

    /// Whether the tag announces the payload that the message holds.
    pub fn is_coherent(&self) -> (res: bool)
        ensures
            res == self@.is_coherent(),
    {
        self.message_type == self.data.message_type()
    }
}

} // verus!
