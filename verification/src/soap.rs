//! The SOAP front of the notes service behind the balancer: the request
//! envelope, the operation it asks for, and the fault document.
use vstd::prelude::*;
use vstd::string::StringExecFns;

verus! {

/// The request envelope.
#[derive(Debug)]
pub struct SoapEnvelope {
    pub body: SoapBody,
}

/// The request body: one field per operation.
#[derive(Debug)]
pub struct SoapBody {
    pub create: Option<CreateNoteRequest>,
    pub get_one: Option<GetOneNoteRequest>,
    pub get_all: Option<GetAllNotesRequest>,
    pub update: Option<UpdateNoteRequest>,
    pub delete: Option<DeleteNoteRequest>,
}

#[derive(Debug)]
pub struct CreateNoteRequest {
    pub content: String,
}

#[derive(Debug)]
pub struct GetOneNoteRequest {
    pub id: i64,
}

#[derive(Debug)]
pub struct GetAllNotesRequest {}

#[derive(Debug)]
pub struct UpdateNoteRequest {
    pub id: i64,
    pub content: String,
}

#[derive(Debug)]
pub struct DeleteNoteRequest {
    pub id: i64,
}

/// The operation that a request asks for.
#[derive(Debug)]
pub enum NoteOperationRequest {
    Create(CreateNoteRequest),
    GetOne(GetOneNoteRequest),
    GetAll,
    Update(UpdateNoteRequest),
    Delete(DeleteNoteRequest),
}

/// The operation of a body: the first field present, in the order create,
/// get one, get all, update, delete; none where the body is empty.
pub open spec fn operation_of(body: SoapBody) -> Option<NoteOperationRequest> {
    if let Some(c) = body.create {
        Some(NoteOperationRequest::Create(c))
    } else if let Some(g) = body.get_one {
        Some(NoteOperationRequest::GetOne(g))
    } else if body.get_all is Some {
        Some(NoteOperationRequest::GetAll)
    } else if let Some(u) = body.update {
        Some(NoteOperationRequest::Update(u))
    } else if let Some(d) = body.delete {
        Some(NoteOperationRequest::Delete(d))
    } else {
        None
    }
}

pub fn to_operation(body: SoapBody) -> (operation: Option<NoteOperationRequest>)
    ensures
        operation == operation_of(body),
{
    if let Some(c) = body.create {
        return Some(NoteOperationRequest::Create(c));
    }
    if let Some(g) = body.get_one {
        return Some(NoteOperationRequest::GetOne(g));
    }
    if let Some(_g) = body.get_all {
        return Some(NoteOperationRequest::GetAll);
    }
    if let Some(u) = body.update {
        return Some(NoteOperationRequest::Update(u));
    }
    if let Some(d) = body.delete {
        return Some(NoteOperationRequest::Delete(d));
    }
    None
}

/// The fault codes of SOAP 1.1.
#[derive(Debug, Clone, Copy)]
pub enum SoapFaultCode {
    /// The message was badly formed or held wrong information.
    Client,
    /// The message could not be processed for reasons other than its content.
    Server,
    /// A mandatory header entry was not understood.
    MustUnderstand,
    /// The namespace of the envelope is not the expected one.
    VersionMismatch,
}

impl SoapFaultCode {
    /// The code as it is written in a fault document.
    pub open spec fn name(self) -> Seq<char> {
        match self {
            SoapFaultCode::Client => "Client"@,
            SoapFaultCode::Server => "Server"@,
            SoapFaultCode::MustUnderstand => "MustUnderstand"@,
            SoapFaultCode::VersionMismatch => "VersionMismatch"@,
        }
    }

    pub fn as_str(self) -> (s: &'static str)
        ensures
            s@ == self.name(),
    {
        match self {
            SoapFaultCode::Client => "Client",
            SoapFaultCode::Server => "Server",
            SoapFaultCode::MustUnderstand => "MustUnderstand",
            SoapFaultCode::VersionMismatch => "VersionMismatch",
        }
    }
}

/// The fault document for a code and a message. The message is written as it
/// comes, without escaping.
pub open spec fn soap_fault(fault_code: SoapFaultCode, fault_string: Seq<char>) -> Seq<char> {
    "<?xml version=\"1.0\" encoding=\"UTF-8\"?>\n<soap:Envelope xmlns:soap=\"http://schemas.xmlsoap.org/soap/envelope/\" soap:encodingStyle=\"http://www.w3.org/2003/05/soap-encoding\">\n  <soap:Body>\n    <soap:Fault>\n      <faultcode>"@
        + fault_code.name() + "</faultcode>\n      <faultstring>"@ + fault_string
        + "</faultstring>\n    </soap:Fault>\n  </soap:Body>\n</soap:Envelope>"@
}

pub fn build_soap_fault(fault_code: SoapFaultCode, fault_string: &str) -> (document: String)
    ensures
        document@ == soap_fault(fault_code, fault_string@),
{
    let mut document = String::from_str(
        "<?xml version=\"1.0\" encoding=\"UTF-8\"?>\n<soap:Envelope xmlns:soap=\"http://schemas.xmlsoap.org/soap/envelope/\" soap:encodingStyle=\"http://www.w3.org/2003/05/soap-encoding\">\n  <soap:Body>\n    <soap:Fault>\n      <faultcode>",
    );
    document.append(fault_code.as_str());
    document.append("</faultcode>\n      <faultstring>");
    document.append(fault_string);
    document.append("</faultstring>\n    </soap:Fault>\n  </soap:Body>\n</soap:Envelope>");
    document
}

} // verus!
