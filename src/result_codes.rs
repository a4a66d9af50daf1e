use smoltcp::socket::{dns, icmp, tcp, udp};
use vstd::prelude::*;

verus! {

/// The single result-code space shared by every fallible operation.
///
/// Each protocol operation has a narrow error enum of its own; every variant of
/// those maps to the variant of the same name here, and `OK` (code 0) always
/// means success.
#[derive(Debug, Clone, Copy, PartialEq, Eq, Structural)]
#[non_exhaustive]
pub enum ResultCode {
    /// Everything is OK, the operation has succeeded.
    OK,
    /// An operation cannot proceed because a buffer is empty or full.
    Exhausted,
    /// An operation is not permitted in the current state.
    Illegal,
    /// An endpoint or address of a remote host could not be translated to a lower level address.
    Unaddressable,
    /// The operation is finished, e.g. the remote has closed the connection.
    Finished,
    /// An incoming packet had fields out of bounds of the received data.
    Truncated,
    /// An incoming packet had an incorrect checksum and was dropped.
    Checksum,
    /// An incoming packet could not be recognized and was dropped.
    Unrecognized,
    /// An incoming IP packet was fragmented and was dropped.
    Fragmented,
    /// An incoming packet was recognized but was self-contradictory.
    Malformed,
    /// An incoming packet was recognized but contradicted internal state.
    Dropped,
    /// An incoming fragment arrived too late.
    ReassemblyTimeout,
    /// The packet assembler is not initialized.
    PacketAssemblerNotInit,
    /// The buffer of the packet assembler is too small for the final packet.
    PacketAssemblerBufferTooSmall,
    /// The packet assembler did not receive all the fragments.
    PacketAssemblerIncomplete,
    /// There are too many holes in the packet assembler.
    PacketAssemblerTooManyHoles,
    /// There was an overlap when adding data to the packet assembler.
    PacketAssemblerOverlap,
    /// The packet assembler set has no place for a new stream of fragments.
    PacketAssemblerSetFull,
    /// The key was not found in the packet assembler set.
    PacketAssemblerSetKeyNotFound,
    /// An incoming packet was recognized but some parts are not supported.
    NotSupported,
    /// The socket is in a state that does not allow the operation.
    InvalidState,
    /// The transmit buffer is full.
    BufferFull,
    /// No free slot is left for a new query.
    NoFreeSlot,
    /// The name is not valid.
    InvalidName,
    /// The name is too long.
    NameTooLong,
    /// The operation is not done yet.
    Pending,
    /// The operation has failed.
    Failed,
    /// The buffer that the caller provided is too small.
    BufferInsufficient,
}

impl ResultCode {
    /// The numeric value of a result code, as the host sees it.
    pub open spec fn spec_code(self) -> u8 {
        match self {
            ResultCode::OK => 0,
            ResultCode::Exhausted => 1,
            ResultCode::Illegal => 2,
            ResultCode::Unaddressable => 3,
            ResultCode::Finished => 4,
            ResultCode::Truncated => 5,
            ResultCode::Checksum => 6,
            ResultCode::Unrecognized => 7,
            ResultCode::Fragmented => 8,
            ResultCode::Malformed => 9,
            ResultCode::Dropped => 10,
            ResultCode::ReassemblyTimeout => 11,
            ResultCode::PacketAssemblerNotInit => 12,
            ResultCode::PacketAssemblerBufferTooSmall => 13,
            ResultCode::PacketAssemblerIncomplete => 14,
            ResultCode::PacketAssemblerTooManyHoles => 15,
            ResultCode::PacketAssemblerOverlap => 16,
            ResultCode::PacketAssemblerSetFull => 17,
            ResultCode::PacketAssemblerSetKeyNotFound => 18,
            ResultCode::NotSupported => 19,
            ResultCode::InvalidState => 20,
            ResultCode::BufferFull => 21,
            ResultCode::NoFreeSlot => 22,
            ResultCode::InvalidName => 23,
            ResultCode::NameTooLong => 24,
            ResultCode::Pending => 25,
            ResultCode::Failed => 26,
            ResultCode::BufferInsufficient => 255,
        }
    }

    /// The numeric value of this result code.
    pub fn code(&self) -> (r: u8)
        ensures
            r == self.spec_code(),
    {
        match self {
            ResultCode::OK => 0,
            ResultCode::Exhausted => 1,
            ResultCode::Illegal => 2,
            ResultCode::Unaddressable => 3,
            ResultCode::Finished => 4,
            ResultCode::Truncated => 5,
            ResultCode::Checksum => 6,
            ResultCode::Unrecognized => 7,
            ResultCode::Fragmented => 8,
            ResultCode::Malformed => 9,
            ResultCode::Dropped => 10,
            ResultCode::ReassemblyTimeout => 11,
            ResultCode::PacketAssemblerNotInit => 12,
            ResultCode::PacketAssemblerBufferTooSmall => 13,
            ResultCode::PacketAssemblerIncomplete => 14,
            ResultCode::PacketAssemblerTooManyHoles => 15,
            ResultCode::PacketAssemblerOverlap => 16,
            ResultCode::PacketAssemblerSetFull => 17,
            ResultCode::PacketAssemblerSetKeyNotFound => 18,
            ResultCode::NotSupported => 19,
            ResultCode::InvalidState => 20,
            ResultCode::BufferFull => 21,
            ResultCode::NoFreeSlot => 22,
            ResultCode::InvalidName => 23,
            ResultCode::NameTooLong => 24,
            ResultCode::Pending => 25,
            ResultCode::Failed => 26,
            ResultCode::BufferInsufficient => 255,
        }
    }
}

#[verifier::external_type_specification]
pub struct ExTcpListenError(tcp::ListenError);

#[verifier::external_type_specification]
pub struct ExTcpConnectError(tcp::ConnectError);

#[verifier::external_type_specification]
pub struct ExTcpSendError(tcp::SendError);

#[verifier::external_type_specification]
pub struct ExTcpRecvError(tcp::RecvError);

#[verifier::external_type_specification]
pub struct ExUdpBindError(udp::BindError);

#[verifier::external_type_specification]
pub struct ExUdpSendError(udp::SendError);

#[verifier::external_type_specification]
pub struct ExUdpRecvError(udp::RecvError);

#[verifier::external_type_specification]
pub struct ExIcmpBindError(icmp::BindError);

#[verifier::external_type_specification]
pub struct ExIcmpSendError(icmp::SendError);

#[verifier::external_type_specification]
pub struct ExIcmpRecvError(icmp::RecvError);

#[verifier::external_type_specification]
pub struct ExDnsStartQueryError(dns::StartQueryError);

#[verifier::external_type_specification]
pub struct ExDnsGetQueryResultError(dns::GetQueryResultError);

/// Outcome of listening on a TCP socket.
///
/// `OK` stands for success; every other variant is the error of the same name
/// in the stack's own error type and in [`ResultCode`].
#[derive(Debug, Clone, Copy, PartialEq, Eq, PartialOrd, Ord, Structural)]
pub enum TCPListenError {
    OK,
    InvalidState,
    Unaddressable,
}

impl TCPListenError {
    /// The master result code of the variant of the same name.
    pub open spec fn spec_result_code(self) -> ResultCode {
        match self {
            TCPListenError::OK => ResultCode::OK,
            TCPListenError::InvalidState => ResultCode::InvalidState,
            TCPListenError::Unaddressable => ResultCode::Unaddressable,
        }
    }

    /// The stack error that this value stands for, if it is not `OK`.
    pub open spec fn spec_error(self) -> Option<tcp::ListenError> {
        match self {
            TCPListenError::OK => None,
            TCPListenError::InvalidState => Some(tcp::ListenError::InvalidState),
            TCPListenError::Unaddressable => Some(tcp::ListenError::Unaddressable),
        }
    }

    /// The outcome that a stack error stands for.
    pub open spec fn spec_from_error(e: tcp::ListenError) -> Self {
        match e {
            tcp::ListenError::InvalidState => TCPListenError::InvalidState,
            tcp::ListenError::Unaddressable => TCPListenError::Unaddressable,
        }
    }

    /// The outcome of an operation of the stack.
    pub open spec fn spec_from_result(res: Result<(), tcp::ListenError>) -> Self {
        match res {
            Ok(_) => TCPListenError::OK,
            Err(e) => Self::spec_from_error(e),
        }
    }

    /// Converts back into the stack's own result type.
    pub fn into_result(self) -> (r: Result<(), tcp::ListenError>)
        ensures
            r == (match self.spec_error() {
                None => Ok(()),
                Some(e) => Err(e),
            }),
    {
        match self {
            TCPListenError::OK => Ok(()),
            TCPListenError::InvalidState => Err(tcp::ListenError::InvalidState),
            TCPListenError::Unaddressable => Err(tcp::ListenError::Unaddressable),
        }
    }

    /// The master result code of this outcome.
    pub fn result_code(self) -> (r: ResultCode)
        ensures
            r == self.spec_result_code(),
    {
        match self {
            TCPListenError::OK => ResultCode::OK,
            TCPListenError::InvalidState => ResultCode::InvalidState,
            TCPListenError::Unaddressable => ResultCode::Unaddressable,
        }
    }
}

impl From<tcp::ListenError> for TCPListenError {
    fn from(e: tcp::ListenError) -> (r: Self) {
        match e {
            tcp::ListenError::InvalidState => TCPListenError::InvalidState,
            tcp::ListenError::Unaddressable => TCPListenError::Unaddressable,
        }
    }
}

impl vstd::std_specs::convert::FromSpecImpl<tcp::ListenError> for TCPListenError {
    open spec fn obeys_from_spec() -> bool {
        true
    }

    open spec fn from_spec(e: tcp::ListenError) -> Self {
        TCPListenError::spec_from_error(e)
    }
}

impl From<Result<(), tcp::ListenError>> for TCPListenError {
    fn from(res: Result<(), tcp::ListenError>) -> (r: Self) {
        match res {
            Ok(_) => TCPListenError::OK,
            Err(e) => TCPListenError::from(e),
        }
    }
}

impl vstd::std_specs::convert::FromSpecImpl<Result<(), tcp::ListenError>> for TCPListenError {
    open spec fn obeys_from_spec() -> bool {
        true
    }

    open spec fn from_spec(res: Result<(), tcp::ListenError>) -> Self {
        TCPListenError::spec_from_result(res)
    }
}

impl From<TCPListenError> for ResultCode {
    fn from(e: TCPListenError) -> (r: Self) {
        e.result_code()
    }
}

/// [`TCPListenError`] loses nothing: a stack error converted into it and back is the
/// same error, every value survives the trip through the stack's result type,
/// and distinct values have distinct master result codes.
pub proof fn lemma_tcp_listen_error_lossless(e: tcp::ListenError, v: TCPListenError, u: TCPListenError)
    ensures
        TCPListenError::spec_from_error(e).spec_error() == Some(e),
        TCPListenError::spec_from_result(
            match v.spec_error() {
                None => Ok(()),
                Some(err) => Err(err),
            },
        ) == v,
        v.spec_result_code() == u.spec_result_code() ==> v == u,
{
}

impl vstd::std_specs::convert::FromSpecImpl<TCPListenError> for ResultCode {
    open spec fn obeys_from_spec() -> bool {
        true
    }

    open spec fn from_spec(e: TCPListenError) -> Self {
        e.spec_result_code()
    }
}

/// Outcome of connecting a TCP socket.
///
/// `OK` stands for success; every other variant is the error of the same name
/// in the stack's own error type and in [`ResultCode`].
#[derive(Debug, Clone, Copy, PartialEq, Eq, PartialOrd, Ord, Structural)]
pub enum TCPConnectError {
    OK,
    InvalidState,
    Unaddressable,
}

impl TCPConnectError {
    /// The master result code of the variant of the same name.
    pub open spec fn spec_result_code(self) -> ResultCode {
        match self {
            TCPConnectError::OK => ResultCode::OK,
            TCPConnectError::InvalidState => ResultCode::InvalidState,
            TCPConnectError::Unaddressable => ResultCode::Unaddressable,
        }
    }

    /// The stack error that this value stands for, if it is not `OK`.
    pub open spec fn spec_error(self) -> Option<tcp::ConnectError> {
        match self {
            TCPConnectError::OK => None,
            TCPConnectError::InvalidState => Some(tcp::ConnectError::InvalidState),
            TCPConnectError::Unaddressable => Some(tcp::ConnectError::Unaddressable),
        }
    }

    /// The outcome that a stack error stands for.
    pub open spec fn spec_from_error(e: tcp::ConnectError) -> Self {
        match e {
            tcp::ConnectError::InvalidState => TCPConnectError::InvalidState,
            tcp::ConnectError::Unaddressable => TCPConnectError::Unaddressable,
        }
    }

    /// The outcome of an operation of the stack.
    pub open spec fn spec_from_result(res: Result<(), tcp::ConnectError>) -> Self {
        match res {
            Ok(_) => TCPConnectError::OK,
            Err(e) => Self::spec_from_error(e),
        }
    }

    /// Converts back into the stack's own result type.
    pub fn into_result(self) -> (r: Result<(), tcp::ConnectError>)
        ensures
            r == (match self.spec_error() {
                None => Ok(()),
                Some(e) => Err(e),
            }),
    {
        match self {
            TCPConnectError::OK => Ok(()),
            TCPConnectError::InvalidState => Err(tcp::ConnectError::InvalidState),
            TCPConnectError::Unaddressable => Err(tcp::ConnectError::Unaddressable),
        }
    }

    /// The master result code of this outcome.
    pub fn result_code(self) -> (r: ResultCode)
        ensures
            r == self.spec_result_code(),
    {
        match self {
            TCPConnectError::OK => ResultCode::OK,
            TCPConnectError::InvalidState => ResultCode::InvalidState,
            TCPConnectError::Unaddressable => ResultCode::Unaddressable,
        }
    }
}

impl From<tcp::ConnectError> for TCPConnectError {
    fn from(e: tcp::ConnectError) -> (r: Self) {
        match e {
            tcp::ConnectError::InvalidState => TCPConnectError::InvalidState,
            tcp::ConnectError::Unaddressable => TCPConnectError::Unaddressable,
        }
    }
}

impl vstd::std_specs::convert::FromSpecImpl<tcp::ConnectError> for TCPConnectError {
    open spec fn obeys_from_spec() -> bool {
        true
    }

    open spec fn from_spec(e: tcp::ConnectError) -> Self {
        TCPConnectError::spec_from_error(e)
    }
}

impl From<Result<(), tcp::ConnectError>> for TCPConnectError {
    fn from(res: Result<(), tcp::ConnectError>) -> (r: Self) {
        match res {
            Ok(_) => TCPConnectError::OK,
            Err(e) => TCPConnectError::from(e),
        }
    }
}

impl vstd::std_specs::convert::FromSpecImpl<Result<(), tcp::ConnectError>> for TCPConnectError {
    open spec fn obeys_from_spec() -> bool {
        true
    }

    open spec fn from_spec(res: Result<(), tcp::ConnectError>) -> Self {
        TCPConnectError::spec_from_result(res)
    }
}

impl From<TCPConnectError> for ResultCode {
    fn from(e: TCPConnectError) -> (r: Self) {
        e.result_code()
    }
}

/// [`TCPConnectError`] loses nothing: a stack error converted into it and back is the
/// same error, every value survives the trip through the stack's result type,
/// and distinct values have distinct master result codes.
pub proof fn lemma_tcp_connect_error_lossless(e: tcp::ConnectError, v: TCPConnectError, u: TCPConnectError)
    ensures
        TCPConnectError::spec_from_error(e).spec_error() == Some(e),
        TCPConnectError::spec_from_result(
            match v.spec_error() {
                None => Ok(()),
                Some(err) => Err(err),
            },
        ) == v,
        v.spec_result_code() == u.spec_result_code() ==> v == u,
{
}

impl vstd::std_specs::convert::FromSpecImpl<TCPConnectError> for ResultCode {
    open spec fn obeys_from_spec() -> bool {
        true
    }

    open spec fn from_spec(e: TCPConnectError) -> Self {
        e.spec_result_code()
    }
}

/// Outcome of sending on a TCP socket.
///
/// `OK` stands for success; every other variant is the error of the same name
/// in the stack's own error type and in [`ResultCode`].
#[derive(Debug, Clone, Copy, PartialEq, Eq, PartialOrd, Ord, Structural)]
pub enum TCPSendError {
    OK,
    InvalidState,
}

impl TCPSendError {
    /// The master result code of the variant of the same name.
    pub open spec fn spec_result_code(self) -> ResultCode {
        match self {
            TCPSendError::OK => ResultCode::OK,
            TCPSendError::InvalidState => ResultCode::InvalidState,
        }
    }

    /// The stack error that this value stands for, if it is not `OK`.
    pub open spec fn spec_error(self) -> Option<tcp::SendError> {
        match self {
            TCPSendError::OK => None,
            TCPSendError::InvalidState => Some(tcp::SendError::InvalidState),
        }
    }

    /// The outcome that a stack error stands for.
    pub open spec fn spec_from_error(e: tcp::SendError) -> Self {
        match e {
            tcp::SendError::InvalidState => TCPSendError::InvalidState,
        }
    }

    /// The outcome of an operation of the stack.
    pub open spec fn spec_from_result(res: Result<(), tcp::SendError>) -> Self {
        match res {
            Ok(_) => TCPSendError::OK,
            Err(e) => Self::spec_from_error(e),
        }
    }

    /// Converts back into the stack's own result type.
    pub fn into_result(self) -> (r: Result<(), tcp::SendError>)
        ensures
            r == (match self.spec_error() {
                None => Ok(()),
                Some(e) => Err(e),
            }),
    {
        match self {
            TCPSendError::OK => Ok(()),
            TCPSendError::InvalidState => Err(tcp::SendError::InvalidState),
        }
    }

    /// The master result code of this outcome.
    pub fn result_code(self) -> (r: ResultCode)
        ensures
            r == self.spec_result_code(),
    {
        match self {
            TCPSendError::OK => ResultCode::OK,
            TCPSendError::InvalidState => ResultCode::InvalidState,
        }
    }
}

impl From<tcp::SendError> for TCPSendError {
    fn from(e: tcp::SendError) -> (r: Self) {
        match e {
            tcp::SendError::InvalidState => TCPSendError::InvalidState,
        }
    }
}

impl vstd::std_specs::convert::FromSpecImpl<tcp::SendError> for TCPSendError {
    open spec fn obeys_from_spec() -> bool {
        true
    }

    open spec fn from_spec(e: tcp::SendError) -> Self {
        TCPSendError::spec_from_error(e)
    }
}

impl From<Result<(), tcp::SendError>> for TCPSendError {
    fn from(res: Result<(), tcp::SendError>) -> (r: Self) {
        match res {
            Ok(_) => TCPSendError::OK,
            Err(e) => TCPSendError::from(e),
        }
    }
}

impl vstd::std_specs::convert::FromSpecImpl<Result<(), tcp::SendError>> for TCPSendError {
    open spec fn obeys_from_spec() -> bool {
        true
    }

    open spec fn from_spec(res: Result<(), tcp::SendError>) -> Self {
        TCPSendError::spec_from_result(res)
    }
}

impl From<TCPSendError> for ResultCode {
    fn from(e: TCPSendError) -> (r: Self) {
        e.result_code()
    }
}

/// [`TCPSendError`] loses nothing: a stack error converted into it and back is the
/// same error, every value survives the trip through the stack's result type,
/// and distinct values have distinct master result codes.
pub proof fn lemma_tcp_send_error_lossless(e: tcp::SendError, v: TCPSendError, u: TCPSendError)
    ensures
        TCPSendError::spec_from_error(e).spec_error() == Some(e),
        TCPSendError::spec_from_result(
            match v.spec_error() {
                None => Ok(()),
                Some(err) => Err(err),
            },
        ) == v,
        v.spec_result_code() == u.spec_result_code() ==> v == u,
{
}

impl vstd::std_specs::convert::FromSpecImpl<TCPSendError> for ResultCode {
    open spec fn obeys_from_spec() -> bool {
        true
    }

    open spec fn from_spec(e: TCPSendError) -> Self {
        e.spec_result_code()
    }
}

/// Outcome of receiving from a TCP socket.
///
/// `OK` stands for success; every other variant is the error of the same name
/// in the stack's own error type and in [`ResultCode`].
#[derive(Debug, Clone, Copy, PartialEq, Eq, PartialOrd, Ord, Structural)]
pub enum TCPRecvError {
    OK,
    InvalidState,
    Finished,
}

impl TCPRecvError {
    /// The master result code of the variant of the same name.
    pub open spec fn spec_result_code(self) -> ResultCode {
        match self {
            TCPRecvError::OK => ResultCode::OK,
            TCPRecvError::InvalidState => ResultCode::InvalidState,
            TCPRecvError::Finished => ResultCode::Finished,
        }
    }

    /// The stack error that this value stands for, if it is not `OK`.
    pub open spec fn spec_error(self) -> Option<tcp::RecvError> {
        match self {
            TCPRecvError::OK => None,
            TCPRecvError::InvalidState => Some(tcp::RecvError::InvalidState),
            TCPRecvError::Finished => Some(tcp::RecvError::Finished),
        }
    }

    /// The outcome that a stack error stands for.
    pub open spec fn spec_from_error(e: tcp::RecvError) -> Self {
        match e {
            tcp::RecvError::InvalidState => TCPRecvError::InvalidState,
            tcp::RecvError::Finished => TCPRecvError::Finished,
        }
    }

    /// The outcome of an operation of the stack.
    pub open spec fn spec_from_result(res: Result<(), tcp::RecvError>) -> Self {
        match res {
            Ok(_) => TCPRecvError::OK,
            Err(e) => Self::spec_from_error(e),
        }
    }

    /// Converts back into the stack's own result type.
    pub fn into_result(self) -> (r: Result<(), tcp::RecvError>)
        ensures
            r == (match self.spec_error() {
                None => Ok(()),
                Some(e) => Err(e),
            }),
    {
        match self {
            TCPRecvError::OK => Ok(()),
            TCPRecvError::InvalidState => Err(tcp::RecvError::InvalidState),
            TCPRecvError::Finished => Err(tcp::RecvError::Finished),
        }
    }

    /// The master result code of this outcome.
    pub fn result_code(self) -> (r: ResultCode)
        ensures
            r == self.spec_result_code(),
    {
        match self {
            TCPRecvError::OK => ResultCode::OK,
            TCPRecvError::InvalidState => ResultCode::InvalidState,
            TCPRecvError::Finished => ResultCode::Finished,
        }
    }
}

impl From<tcp::RecvError> for TCPRecvError {
    fn from(e: tcp::RecvError) -> (r: Self) {
        match e {
            tcp::RecvError::InvalidState => TCPRecvError::InvalidState,
            tcp::RecvError::Finished => TCPRecvError::Finished,
        }
    }
}

impl vstd::std_specs::convert::FromSpecImpl<tcp::RecvError> for TCPRecvError {
    open spec fn obeys_from_spec() -> bool {
        true
    }

    open spec fn from_spec(e: tcp::RecvError) -> Self {
        TCPRecvError::spec_from_error(e)
    }
}

impl From<Result<(), tcp::RecvError>> for TCPRecvError {
    fn from(res: Result<(), tcp::RecvError>) -> (r: Self) {
        match res {
            Ok(_) => TCPRecvError::OK,
            Err(e) => TCPRecvError::from(e),
        }
    }
}

impl vstd::std_specs::convert::FromSpecImpl<Result<(), tcp::RecvError>> for TCPRecvError {
    open spec fn obeys_from_spec() -> bool {
        true
    }

    open spec fn from_spec(res: Result<(), tcp::RecvError>) -> Self {
        TCPRecvError::spec_from_result(res)
    }
}

impl From<TCPRecvError> for ResultCode {
    fn from(e: TCPRecvError) -> (r: Self) {
        e.result_code()
    }
}

/// [`TCPRecvError`] loses nothing: a stack error converted into it and back is the
/// same error, every value survives the trip through the stack's result type,
/// and distinct values have distinct master result codes.
pub proof fn lemma_tcp_recv_error_lossless(e: tcp::RecvError, v: TCPRecvError, u: TCPRecvError)
    ensures
        TCPRecvError::spec_from_error(e).spec_error() == Some(e),
        TCPRecvError::spec_from_result(
            match v.spec_error() {
                None => Ok(()),
                Some(err) => Err(err),
            },
        ) == v,
        v.spec_result_code() == u.spec_result_code() ==> v == u,
{
}

impl vstd::std_specs::convert::FromSpecImpl<TCPRecvError> for ResultCode {
    open spec fn obeys_from_spec() -> bool {
        true
    }

    open spec fn from_spec(e: TCPRecvError) -> Self {
        e.spec_result_code()
    }
}

/// Outcome of binding a UDP socket.
///
/// `OK` stands for success; every other variant is the error of the same name
/// in the stack's own error type and in [`ResultCode`].
#[derive(Debug, Clone, Copy, PartialEq, Eq, PartialOrd, Ord, Structural)]
pub enum UDPBindError {
    OK,
    InvalidState,
    Unaddressable,
}

impl UDPBindError {
    /// The master result code of the variant of the same name.
    pub open spec fn spec_result_code(self) -> ResultCode {
        match self {
            UDPBindError::OK => ResultCode::OK,
            UDPBindError::InvalidState => ResultCode::InvalidState,
            UDPBindError::Unaddressable => ResultCode::Unaddressable,
        }
    }

    /// The stack error that this value stands for, if it is not `OK`.
    pub open spec fn spec_error(self) -> Option<udp::BindError> {
        match self {
            UDPBindError::OK => None,
            UDPBindError::InvalidState => Some(udp::BindError::InvalidState),
            UDPBindError::Unaddressable => Some(udp::BindError::Unaddressable),
        }
    }

    /// The outcome that a stack error stands for.
    pub open spec fn spec_from_error(e: udp::BindError) -> Self {
        match e {
            udp::BindError::InvalidState => UDPBindError::InvalidState,
            udp::BindError::Unaddressable => UDPBindError::Unaddressable,
        }
    }

    /// The outcome of an operation of the stack.
    pub open spec fn spec_from_result(res: Result<(), udp::BindError>) -> Self {
        match res {
            Ok(_) => UDPBindError::OK,
            Err(e) => Self::spec_from_error(e),
        }
    }

    /// Converts back into the stack's own result type.
    pub fn into_result(self) -> (r: Result<(), udp::BindError>)
        ensures
            r == (match self.spec_error() {
                None => Ok(()),
                Some(e) => Err(e),
            }),
    {
        match self {
            UDPBindError::OK => Ok(()),
            UDPBindError::InvalidState => Err(udp::BindError::InvalidState),
            UDPBindError::Unaddressable => Err(udp::BindError::Unaddressable),
        }
    }

    /// The master result code of this outcome.
    pub fn result_code(self) -> (r: ResultCode)
        ensures
            r == self.spec_result_code(),
    {
        match self {
            UDPBindError::OK => ResultCode::OK,
            UDPBindError::InvalidState => ResultCode::InvalidState,
            UDPBindError::Unaddressable => ResultCode::Unaddressable,
        }
    }
}

impl From<udp::BindError> for UDPBindError {
    fn from(e: udp::BindError) -> (r: Self) {
        match e {
            udp::BindError::InvalidState => UDPBindError::InvalidState,
            udp::BindError::Unaddressable => UDPBindError::Unaddressable,
        }
    }
}

impl vstd::std_specs::convert::FromSpecImpl<udp::BindError> for UDPBindError {
    open spec fn obeys_from_spec() -> bool {
        true
    }

    open spec fn from_spec(e: udp::BindError) -> Self {
        UDPBindError::spec_from_error(e)
    }
}

impl From<Result<(), udp::BindError>> for UDPBindError {
    fn from(res: Result<(), udp::BindError>) -> (r: Self) {
        match res {
            Ok(_) => UDPBindError::OK,
            Err(e) => UDPBindError::from(e),
        }
    }
}

impl vstd::std_specs::convert::FromSpecImpl<Result<(), udp::BindError>> for UDPBindError {
    open spec fn obeys_from_spec() -> bool {
        true
    }

    open spec fn from_spec(res: Result<(), udp::BindError>) -> Self {
        UDPBindError::spec_from_result(res)
    }
}

impl From<UDPBindError> for ResultCode {
    fn from(e: UDPBindError) -> (r: Self) {
        e.result_code()
    }
}

/// [`UDPBindError`] loses nothing: a stack error converted into it and back is the
/// same error, every value survives the trip through the stack's result type,
/// and distinct values have distinct master result codes.
pub proof fn lemma_udp_bind_error_lossless(e: udp::BindError, v: UDPBindError, u: UDPBindError)
    ensures
        UDPBindError::spec_from_error(e).spec_error() == Some(e),
        UDPBindError::spec_from_result(
            match v.spec_error() {
                None => Ok(()),
                Some(err) => Err(err),
            },
        ) == v,
        v.spec_result_code() == u.spec_result_code() ==> v == u,
{
}

impl vstd::std_specs::convert::FromSpecImpl<UDPBindError> for ResultCode {
    open spec fn obeys_from_spec() -> bool {
        true
    }

    open spec fn from_spec(e: UDPBindError) -> Self {
        e.spec_result_code()
    }
}

/// Outcome of sending on a UDP socket.
///
/// `OK` stands for success; every other variant is the error of the same name
/// in the stack's own error type and in [`ResultCode`].
#[derive(Debug, Clone, Copy, PartialEq, Eq, PartialOrd, Ord, Structural)]
pub enum UDPSendError {
    OK,
    Unaddressable,
    BufferFull,
}

impl UDPSendError {
    /// The master result code of the variant of the same name.
    pub open spec fn spec_result_code(self) -> ResultCode {
        match self {
            UDPSendError::OK => ResultCode::OK,
            UDPSendError::Unaddressable => ResultCode::Unaddressable,
            UDPSendError::BufferFull => ResultCode::BufferFull,
        }
    }

    /// The stack error that this value stands for, if it is not `OK`.
    pub open spec fn spec_error(self) -> Option<udp::SendError> {
        match self {
            UDPSendError::OK => None,
            UDPSendError::Unaddressable => Some(udp::SendError::Unaddressable),
            UDPSendError::BufferFull => Some(udp::SendError::BufferFull),
        }
    }

    /// The outcome that a stack error stands for.
    pub open spec fn spec_from_error(e: udp::SendError) -> Self {
        match e {
            udp::SendError::Unaddressable => UDPSendError::Unaddressable,
            udp::SendError::BufferFull => UDPSendError::BufferFull,
        }
    }

    /// The outcome of an operation of the stack.
    pub open spec fn spec_from_result(res: Result<(), udp::SendError>) -> Self {
        match res {
            Ok(_) => UDPSendError::OK,
            Err(e) => Self::spec_from_error(e),
        }
    }

    /// Converts back into the stack's own result type.
    pub fn into_result(self) -> (r: Result<(), udp::SendError>)
        ensures
            r == (match self.spec_error() {
                None => Ok(()),
                Some(e) => Err(e),
            }),
    {
        match self {
            UDPSendError::OK => Ok(()),
            UDPSendError::Unaddressable => Err(udp::SendError::Unaddressable),
            UDPSendError::BufferFull => Err(udp::SendError::BufferFull),
        }
    }

    /// The master result code of this outcome.
    pub fn result_code(self) -> (r: ResultCode)
        ensures
            r == self.spec_result_code(),
    {
        match self {
            UDPSendError::OK => ResultCode::OK,
            UDPSendError::Unaddressable => ResultCode::Unaddressable,
            UDPSendError::BufferFull => ResultCode::BufferFull,
        }
    }
}

impl From<udp::SendError> for UDPSendError {
    fn from(e: udp::SendError) -> (r: Self) {
        match e {
            udp::SendError::Unaddressable => UDPSendError::Unaddressable,
            udp::SendError::BufferFull => UDPSendError::BufferFull,
        }
    }
}

impl vstd::std_specs::convert::FromSpecImpl<udp::SendError> for UDPSendError {
    open spec fn obeys_from_spec() -> bool {
        true
    }

    open spec fn from_spec(e: udp::SendError) -> Self {
        UDPSendError::spec_from_error(e)
    }
}

impl From<Result<(), udp::SendError>> for UDPSendError {
    fn from(res: Result<(), udp::SendError>) -> (r: Self) {
        match res {
            Ok(_) => UDPSendError::OK,
            Err(e) => UDPSendError::from(e),
        }
    }
}

impl vstd::std_specs::convert::FromSpecImpl<Result<(), udp::SendError>> for UDPSendError {
    open spec fn obeys_from_spec() -> bool {
        true
    }

    open spec fn from_spec(res: Result<(), udp::SendError>) -> Self {
        UDPSendError::spec_from_result(res)
    }
}

impl From<UDPSendError> for ResultCode {
    fn from(e: UDPSendError) -> (r: Self) {
        e.result_code()
    }
}

/// [`UDPSendError`] loses nothing: a stack error converted into it and back is the
/// same error, every value survives the trip through the stack's result type,
/// and distinct values have distinct master result codes.
pub proof fn lemma_udp_send_error_lossless(e: udp::SendError, v: UDPSendError, u: UDPSendError)
    ensures
        UDPSendError::spec_from_error(e).spec_error() == Some(e),
        UDPSendError::spec_from_result(
            match v.spec_error() {
                None => Ok(()),
                Some(err) => Err(err),
            },
        ) == v,
        v.spec_result_code() == u.spec_result_code() ==> v == u,
{
}

impl vstd::std_specs::convert::FromSpecImpl<UDPSendError> for ResultCode {
    open spec fn obeys_from_spec() -> bool {
        true
    }

    open spec fn from_spec(e: UDPSendError) -> Self {
        e.spec_result_code()
    }
}

/// Outcome of receiving from a UDP socket.
///
/// `OK` stands for success; every other variant is the error of the same name
/// in the stack's own error type and in [`ResultCode`].
#[derive(Debug, Clone, Copy, PartialEq, Eq, PartialOrd, Ord, Structural)]
pub enum UDPRecvError {
    OK,
    Exhausted,
}

impl UDPRecvError {
    /// The master result code of the variant of the same name.
    pub open spec fn spec_result_code(self) -> ResultCode {
        match self {
            UDPRecvError::OK => ResultCode::OK,
            UDPRecvError::Exhausted => ResultCode::Exhausted,
        }
    }

    /// The stack error that this value stands for, if it is not `OK`.
    pub open spec fn spec_error(self) -> Option<udp::RecvError> {
        match self {
            UDPRecvError::OK => None,
            UDPRecvError::Exhausted => Some(udp::RecvError::Exhausted),
        }
    }

    /// The outcome that a stack error stands for.
    pub open spec fn spec_from_error(e: udp::RecvError) -> Self {
        match e {
            udp::RecvError::Exhausted => UDPRecvError::Exhausted,
        }
    }

    /// The outcome of an operation of the stack.
    pub open spec fn spec_from_result(res: Result<(), udp::RecvError>) -> Self {
        match res {
            Ok(_) => UDPRecvError::OK,
            Err(e) => Self::spec_from_error(e),
        }
    }

    /// Converts back into the stack's own result type.
    pub fn into_result(self) -> (r: Result<(), udp::RecvError>)
        ensures
            r == (match self.spec_error() {
                None => Ok(()),
                Some(e) => Err(e),
            }),
    {
        match self {
            UDPRecvError::OK => Ok(()),
            UDPRecvError::Exhausted => Err(udp::RecvError::Exhausted),
        }
    }

    /// The master result code of this outcome.
    pub fn result_code(self) -> (r: ResultCode)
        ensures
            r == self.spec_result_code(),
    {
        match self {
            UDPRecvError::OK => ResultCode::OK,
            UDPRecvError::Exhausted => ResultCode::Exhausted,
        }
    }
}

impl From<udp::RecvError> for UDPRecvError {
    fn from(e: udp::RecvError) -> (r: Self) {
        match e {
            udp::RecvError::Exhausted => UDPRecvError::Exhausted,
        }
    }
}

impl vstd::std_specs::convert::FromSpecImpl<udp::RecvError> for UDPRecvError {
    open spec fn obeys_from_spec() -> bool {
        true
    }

    open spec fn from_spec(e: udp::RecvError) -> Self {
        UDPRecvError::spec_from_error(e)
    }
}

impl From<Result<(), udp::RecvError>> for UDPRecvError {
    fn from(res: Result<(), udp::RecvError>) -> (r: Self) {
        match res {
            Ok(_) => UDPRecvError::OK,
            Err(e) => UDPRecvError::from(e),
        }
    }
}

impl vstd::std_specs::convert::FromSpecImpl<Result<(), udp::RecvError>> for UDPRecvError {
    open spec fn obeys_from_spec() -> bool {
        true
    }

    open spec fn from_spec(res: Result<(), udp::RecvError>) -> Self {
        UDPRecvError::spec_from_result(res)
    }
}

impl From<UDPRecvError> for ResultCode {
    fn from(e: UDPRecvError) -> (r: Self) {
        e.result_code()
    }
}

/// [`UDPRecvError`] loses nothing: a stack error converted into it and back is the
/// same error, every value survives the trip through the stack's result type,
/// and distinct values have distinct master result codes.
pub proof fn lemma_udp_recv_error_lossless(e: udp::RecvError, v: UDPRecvError, u: UDPRecvError)
    ensures
        UDPRecvError::spec_from_error(e).spec_error() == Some(e),
        UDPRecvError::spec_from_result(
            match v.spec_error() {
                None => Ok(()),
                Some(err) => Err(err),
            },
        ) == v,
        v.spec_result_code() == u.spec_result_code() ==> v == u,
{
}

impl vstd::std_specs::convert::FromSpecImpl<UDPRecvError> for ResultCode {
    open spec fn obeys_from_spec() -> bool {
        true
    }

    open spec fn from_spec(e: UDPRecvError) -> Self {
        e.spec_result_code()
    }
}

/// Outcome of binding an ICMP socket.
///
/// `OK` stands for success; every other variant is the error of the same name
/// in the stack's own error type and in [`ResultCode`].
#[derive(Debug, Clone, Copy, PartialEq, Eq, PartialOrd, Ord, Structural)]
pub enum ICMPBindError {
    OK,
    InvalidState,
    Unaddressable,
}

impl ICMPBindError {
    /// The master result code of the variant of the same name.
    pub open spec fn spec_result_code(self) -> ResultCode {
        match self {
            ICMPBindError::OK => ResultCode::OK,
            ICMPBindError::InvalidState => ResultCode::InvalidState,
            ICMPBindError::Unaddressable => ResultCode::Unaddressable,
        }
    }

    /// The stack error that this value stands for, if it is not `OK`.
    pub open spec fn spec_error(self) -> Option<icmp::BindError> {
        match self {
            ICMPBindError::OK => None,
            ICMPBindError::InvalidState => Some(icmp::BindError::InvalidState),
            ICMPBindError::Unaddressable => Some(icmp::BindError::Unaddressable),
        }
    }

    /// The outcome that a stack error stands for.
    pub open spec fn spec_from_error(e: icmp::BindError) -> Self {
        match e {
            icmp::BindError::InvalidState => ICMPBindError::InvalidState,
            icmp::BindError::Unaddressable => ICMPBindError::Unaddressable,
        }
    }

    /// The outcome of an operation of the stack.
    pub open spec fn spec_from_result(res: Result<(), icmp::BindError>) -> Self {
        match res {
            Ok(_) => ICMPBindError::OK,
            Err(e) => Self::spec_from_error(e),
        }
    }

    /// Converts back into the stack's own result type.
    pub fn into_result(self) -> (r: Result<(), icmp::BindError>)
        ensures
            r == (match self.spec_error() {
                None => Ok(()),
                Some(e) => Err(e),
            }),
    {
        match self {
            ICMPBindError::OK => Ok(()),
            ICMPBindError::InvalidState => Err(icmp::BindError::InvalidState),
            ICMPBindError::Unaddressable => Err(icmp::BindError::Unaddressable),
        }
    }

    /// The master result code of this outcome.
    pub fn result_code(self) -> (r: ResultCode)
        ensures
            r == self.spec_result_code(),
    {
        match self {
            ICMPBindError::OK => ResultCode::OK,
            ICMPBindError::InvalidState => ResultCode::InvalidState,
            ICMPBindError::Unaddressable => ResultCode::Unaddressable,
        }
    }
}

impl From<icmp::BindError> for ICMPBindError {
    fn from(e: icmp::BindError) -> (r: Self) {
        match e {
            icmp::BindError::InvalidState => ICMPBindError::InvalidState,
            icmp::BindError::Unaddressable => ICMPBindError::Unaddressable,
        }
    }
}

impl vstd::std_specs::convert::FromSpecImpl<icmp::BindError> for ICMPBindError {
    open spec fn obeys_from_spec() -> bool {
        true
    }

    open spec fn from_spec(e: icmp::BindError) -> Self {
        ICMPBindError::spec_from_error(e)
    }
}

impl From<Result<(), icmp::BindError>> for ICMPBindError {
    fn from(res: Result<(), icmp::BindError>) -> (r: Self) {
        match res {
            Ok(_) => ICMPBindError::OK,
            Err(e) => ICMPBindError::from(e),
        }
    }
}

impl vstd::std_specs::convert::FromSpecImpl<Result<(), icmp::BindError>> for ICMPBindError {
    open spec fn obeys_from_spec() -> bool {
        true
    }

    open spec fn from_spec(res: Result<(), icmp::BindError>) -> Self {
        ICMPBindError::spec_from_result(res)
    }
}

impl From<ICMPBindError> for ResultCode {
    fn from(e: ICMPBindError) -> (r: Self) {
        e.result_code()
    }
}

/// [`ICMPBindError`] loses nothing: a stack error converted into it and back is the
/// same error, every value survives the trip through the stack's result type,
/// and distinct values have distinct master result codes.
pub proof fn lemma_icmp_bind_error_lossless(e: icmp::BindError, v: ICMPBindError, u: ICMPBindError)
    ensures
        ICMPBindError::spec_from_error(e).spec_error() == Some(e),
        ICMPBindError::spec_from_result(
            match v.spec_error() {
                None => Ok(()),
                Some(err) => Err(err),
            },
        ) == v,
        v.spec_result_code() == u.spec_result_code() ==> v == u,
{
}

impl vstd::std_specs::convert::FromSpecImpl<ICMPBindError> for ResultCode {
    open spec fn obeys_from_spec() -> bool {
        true
    }

    open spec fn from_spec(e: ICMPBindError) -> Self {
        e.spec_result_code()
    }
}

/// Outcome of sending on an ICMP socket.
///
/// `OK` stands for success; every other variant is the error of the same name
/// in the stack's own error type and in [`ResultCode`].
#[derive(Debug, Clone, Copy, PartialEq, Eq, PartialOrd, Ord, Structural)]
pub enum ICMPSendError {
    OK,
    Unaddressable,
    BufferFull,
}

impl ICMPSendError {
    /// The master result code of the variant of the same name.
    pub open spec fn spec_result_code(self) -> ResultCode {
        match self {
            ICMPSendError::OK => ResultCode::OK,
            ICMPSendError::Unaddressable => ResultCode::Unaddressable,
            ICMPSendError::BufferFull => ResultCode::BufferFull,
        }
    }

    /// The stack error that this value stands for, if it is not `OK`.
    pub open spec fn spec_error(self) -> Option<icmp::SendError> {
        match self {
            ICMPSendError::OK => None,
            ICMPSendError::Unaddressable => Some(icmp::SendError::Unaddressable),
            ICMPSendError::BufferFull => Some(icmp::SendError::BufferFull),
        }
    }

    /// The outcome that a stack error stands for.
    pub open spec fn spec_from_error(e: icmp::SendError) -> Self {
        match e {
            icmp::SendError::Unaddressable => ICMPSendError::Unaddressable,
            icmp::SendError::BufferFull => ICMPSendError::BufferFull,
        }
    }

    /// The outcome of an operation of the stack.
    pub open spec fn spec_from_result(res: Result<(), icmp::SendError>) -> Self {
        match res {
            Ok(_) => ICMPSendError::OK,
            Err(e) => Self::spec_from_error(e),
        }
    }

    /// Converts back into the stack's own result type.
    pub fn into_result(self) -> (r: Result<(), icmp::SendError>)
        ensures
            r == (match self.spec_error() {
                None => Ok(()),
                Some(e) => Err(e),
            }),
    {
        match self {
            ICMPSendError::OK => Ok(()),
            ICMPSendError::Unaddressable => Err(icmp::SendError::Unaddressable),
            ICMPSendError::BufferFull => Err(icmp::SendError::BufferFull),
        }
    }

    /// The master result code of this outcome.
    pub fn result_code(self) -> (r: ResultCode)
        ensures
            r == self.spec_result_code(),
    {
        match self {
            ICMPSendError::OK => ResultCode::OK,
            ICMPSendError::Unaddressable => ResultCode::Unaddressable,
            ICMPSendError::BufferFull => ResultCode::BufferFull,
        }
    }
}

impl From<icmp::SendError> for ICMPSendError {
    fn from(e: icmp::SendError) -> (r: Self) {
        match e {
            icmp::SendError::Unaddressable => ICMPSendError::Unaddressable,
            icmp::SendError::BufferFull => ICMPSendError::BufferFull,
        }
    }
}

impl vstd::std_specs::convert::FromSpecImpl<icmp::SendError> for ICMPSendError {
    open spec fn obeys_from_spec() -> bool {
        true
    }

    open spec fn from_spec(e: icmp::SendError) -> Self {
        ICMPSendError::spec_from_error(e)
    }
}

impl From<Result<(), icmp::SendError>> for ICMPSendError {
    fn from(res: Result<(), icmp::SendError>) -> (r: Self) {
        match res {
            Ok(_) => ICMPSendError::OK,
            Err(e) => ICMPSendError::from(e),
        }
    }
}

impl vstd::std_specs::convert::FromSpecImpl<Result<(), icmp::SendError>> for ICMPSendError {
    open spec fn obeys_from_spec() -> bool {
        true
    }

    open spec fn from_spec(res: Result<(), icmp::SendError>) -> Self {
        ICMPSendError::spec_from_result(res)
    }
}

impl From<ICMPSendError> for ResultCode {
    fn from(e: ICMPSendError) -> (r: Self) {
        e.result_code()
    }
}

/// [`ICMPSendError`] loses nothing: a stack error converted into it and back is the
/// same error, every value survives the trip through the stack's result type,
/// and distinct values have distinct master result codes.
pub proof fn lemma_icmp_send_error_lossless(e: icmp::SendError, v: ICMPSendError, u: ICMPSendError)
    ensures
        ICMPSendError::spec_from_error(e).spec_error() == Some(e),
        ICMPSendError::spec_from_result(
            match v.spec_error() {
                None => Ok(()),
                Some(err) => Err(err),
            },
        ) == v,
        v.spec_result_code() == u.spec_result_code() ==> v == u,
{
}

impl vstd::std_specs::convert::FromSpecImpl<ICMPSendError> for ResultCode {
    open spec fn obeys_from_spec() -> bool {
        true
    }

    open spec fn from_spec(e: ICMPSendError) -> Self {
        e.spec_result_code()
    }
}

/// Outcome of receiving from an ICMP socket.
///
/// `OK` stands for success; every other variant is the error of the same name
/// in the stack's own error type and in [`ResultCode`].
#[derive(Debug, Clone, Copy, PartialEq, Eq, PartialOrd, Ord, Structural)]
pub enum ICMPRecvError {
    OK,
    Exhausted,
}

impl ICMPRecvError {
    /// The master result code of the variant of the same name.
    pub open spec fn spec_result_code(self) -> ResultCode {
        match self {
            ICMPRecvError::OK => ResultCode::OK,
            ICMPRecvError::Exhausted => ResultCode::Exhausted,
        }
    }

    /// The stack error that this value stands for, if it is not `OK`.
    pub open spec fn spec_error(self) -> Option<icmp::RecvError> {
        match self {
            ICMPRecvError::OK => None,
            ICMPRecvError::Exhausted => Some(icmp::RecvError::Exhausted),
        }
    }

    /// The outcome that a stack error stands for.
    pub open spec fn spec_from_error(e: icmp::RecvError) -> Self {
        match e {
            icmp::RecvError::Exhausted => ICMPRecvError::Exhausted,
        }
    }

    /// The outcome of an operation of the stack.
    pub open spec fn spec_from_result(res: Result<(), icmp::RecvError>) -> Self {
        match res {
            Ok(_) => ICMPRecvError::OK,
            Err(e) => Self::spec_from_error(e),
        }
    }

    /// Converts back into the stack's own result type.
    pub fn into_result(self) -> (r: Result<(), icmp::RecvError>)
        ensures
            r == (match self.spec_error() {
                None => Ok(()),
                Some(e) => Err(e),
            }),
    {
        match self {
            ICMPRecvError::OK => Ok(()),
            ICMPRecvError::Exhausted => Err(icmp::RecvError::Exhausted),
        }
    }

    /// The master result code of this outcome.
    pub fn result_code(self) -> (r: ResultCode)
        ensures
            r == self.spec_result_code(),
    {
        match self {
            ICMPRecvError::OK => ResultCode::OK,
            ICMPRecvError::Exhausted => ResultCode::Exhausted,
        }
    }
}

impl From<icmp::RecvError> for ICMPRecvError {
    fn from(e: icmp::RecvError) -> (r: Self) {
        match e {
            icmp::RecvError::Exhausted => ICMPRecvError::Exhausted,
        }
    }
}

impl vstd::std_specs::convert::FromSpecImpl<icmp::RecvError> for ICMPRecvError {
    open spec fn obeys_from_spec() -> bool {
        true
    }

    open spec fn from_spec(e: icmp::RecvError) -> Self {
        ICMPRecvError::spec_from_error(e)
    }
}

impl From<Result<(), icmp::RecvError>> for ICMPRecvError {
    fn from(res: Result<(), icmp::RecvError>) -> (r: Self) {
        match res {
            Ok(_) => ICMPRecvError::OK,
            Err(e) => ICMPRecvError::from(e),
        }
    }
}

impl vstd::std_specs::convert::FromSpecImpl<Result<(), icmp::RecvError>> for ICMPRecvError {
    open spec fn obeys_from_spec() -> bool {
        true
    }

    open spec fn from_spec(res: Result<(), icmp::RecvError>) -> Self {
        ICMPRecvError::spec_from_result(res)
    }
}

impl From<ICMPRecvError> for ResultCode {
    fn from(e: ICMPRecvError) -> (r: Self) {
        e.result_code()
    }
}

/// [`ICMPRecvError`] loses nothing: a stack error converted into it and back is the
/// same error, every value survives the trip through the stack's result type,
/// and distinct values have distinct master result codes.
pub proof fn lemma_icmp_recv_error_lossless(e: icmp::RecvError, v: ICMPRecvError, u: ICMPRecvError)
    ensures
        ICMPRecvError::spec_from_error(e).spec_error() == Some(e),
        ICMPRecvError::spec_from_result(
            match v.spec_error() {
                None => Ok(()),
                Some(err) => Err(err),
            },
        ) == v,
        v.spec_result_code() == u.spec_result_code() ==> v == u,
{
}

impl vstd::std_specs::convert::FromSpecImpl<ICMPRecvError> for ResultCode {
    open spec fn obeys_from_spec() -> bool {
        true
    }

    open spec fn from_spec(e: ICMPRecvError) -> Self {
        e.spec_result_code()
    }
}

/// Outcome of starting a DNS query.
///
/// `OK` stands for success; every other variant is the error of the same name
/// in the stack's own error type and in [`ResultCode`].
#[derive(Debug, Clone, Copy, PartialEq, Eq, PartialOrd, Ord, Structural)]
pub enum DNSStartQueryError {
    OK,
    NoFreeSlot,
    InvalidName,
    NameTooLong,
}

impl DNSStartQueryError {
    /// The master result code of the variant of the same name.
    pub open spec fn spec_result_code(self) -> ResultCode {
        match self {
            DNSStartQueryError::OK => ResultCode::OK,
            DNSStartQueryError::NoFreeSlot => ResultCode::NoFreeSlot,
            DNSStartQueryError::InvalidName => ResultCode::InvalidName,
            DNSStartQueryError::NameTooLong => ResultCode::NameTooLong,
        }
    }

    /// The stack error that this value stands for, if it is not `OK`.
    pub open spec fn spec_error(self) -> Option<dns::StartQueryError> {
        match self {
            DNSStartQueryError::OK => None,
            DNSStartQueryError::NoFreeSlot => Some(dns::StartQueryError::NoFreeSlot),
            DNSStartQueryError::InvalidName => Some(dns::StartQueryError::InvalidName),
            DNSStartQueryError::NameTooLong => Some(dns::StartQueryError::NameTooLong),
        }
    }

    /// The outcome that a stack error stands for.
    pub open spec fn spec_from_error(e: dns::StartQueryError) -> Self {
        match e {
            dns::StartQueryError::NoFreeSlot => DNSStartQueryError::NoFreeSlot,
            dns::StartQueryError::InvalidName => DNSStartQueryError::InvalidName,
            dns::StartQueryError::NameTooLong => DNSStartQueryError::NameTooLong,
        }
    }

    /// The outcome of an operation of the stack.
    pub open spec fn spec_from_result(res: Result<(), dns::StartQueryError>) -> Self {
        match res {
            Ok(_) => DNSStartQueryError::OK,
            Err(e) => Self::spec_from_error(e),
        }
    }

    /// Converts back into the stack's own result type.
    pub fn into_result(self) -> (r: Result<(), dns::StartQueryError>)
        ensures
            r == (match self.spec_error() {
                None => Ok(()),
                Some(e) => Err(e),
            }),
    {
        match self {
            DNSStartQueryError::OK => Ok(()),
            DNSStartQueryError::NoFreeSlot => Err(dns::StartQueryError::NoFreeSlot),
            DNSStartQueryError::InvalidName => Err(dns::StartQueryError::InvalidName),
            DNSStartQueryError::NameTooLong => Err(dns::StartQueryError::NameTooLong),
        }
    }

    /// The master result code of this outcome.
    pub fn result_code(self) -> (r: ResultCode)
        ensures
            r == self.spec_result_code(),
    {
        match self {
            DNSStartQueryError::OK => ResultCode::OK,
            DNSStartQueryError::NoFreeSlot => ResultCode::NoFreeSlot,
            DNSStartQueryError::InvalidName => ResultCode::InvalidName,
            DNSStartQueryError::NameTooLong => ResultCode::NameTooLong,
        }
    }
}

impl From<dns::StartQueryError> for DNSStartQueryError {
    fn from(e: dns::StartQueryError) -> (r: Self) {
        match e {
            dns::StartQueryError::NoFreeSlot => DNSStartQueryError::NoFreeSlot,
            dns::StartQueryError::InvalidName => DNSStartQueryError::InvalidName,
            dns::StartQueryError::NameTooLong => DNSStartQueryError::NameTooLong,
        }
    }
}

impl vstd::std_specs::convert::FromSpecImpl<dns::StartQueryError> for DNSStartQueryError {
    open spec fn obeys_from_spec() -> bool {
        true
    }

    open spec fn from_spec(e: dns::StartQueryError) -> Self {
        DNSStartQueryError::spec_from_error(e)
    }
}

impl From<Result<(), dns::StartQueryError>> for DNSStartQueryError {
    fn from(res: Result<(), dns::StartQueryError>) -> (r: Self) {
        match res {
            Ok(_) => DNSStartQueryError::OK,
            Err(e) => DNSStartQueryError::from(e),
        }
    }
}

impl vstd::std_specs::convert::FromSpecImpl<Result<(), dns::StartQueryError>> for DNSStartQueryError {
    open spec fn obeys_from_spec() -> bool {
        true
    }

    open spec fn from_spec(res: Result<(), dns::StartQueryError>) -> Self {
        DNSStartQueryError::spec_from_result(res)
    }
}

impl From<DNSStartQueryError> for ResultCode {
    fn from(e: DNSStartQueryError) -> (r: Self) {
        e.result_code()
    }
}

/// [`DNSStartQueryError`] loses nothing: a stack error converted into it and back is the
/// same error, every value survives the trip through the stack's result type,
/// and distinct values have distinct master result codes.
pub proof fn lemma_dns_start_query_error_lossless(e: dns::StartQueryError, v: DNSStartQueryError, u: DNSStartQueryError)
    ensures
        DNSStartQueryError::spec_from_error(e).spec_error() == Some(e),
        DNSStartQueryError::spec_from_result(
            match v.spec_error() {
                None => Ok(()),
                Some(err) => Err(err),
            },
        ) == v,
        v.spec_result_code() == u.spec_result_code() ==> v == u,
{
}

impl vstd::std_specs::convert::FromSpecImpl<DNSStartQueryError> for ResultCode {
    open spec fn obeys_from_spec() -> bool {
        true
    }

    open spec fn from_spec(e: DNSStartQueryError) -> Self {
        e.spec_result_code()
    }
}

/// Outcome of asking for the result of a DNS query.
///
/// `OK` stands for success; every other variant is the error of the same name
/// in the stack's own error type and in [`ResultCode`].
#[derive(Debug, Clone, Copy, PartialEq, Eq, PartialOrd, Ord, Structural)]
pub enum DNSGetQueryResultError {
    OK,
    Pending,
    Failed,
}

impl DNSGetQueryResultError {
    /// The master result code of the variant of the same name.
    pub open spec fn spec_result_code(self) -> ResultCode {
        match self {
            DNSGetQueryResultError::OK => ResultCode::OK,
            DNSGetQueryResultError::Pending => ResultCode::Pending,
            DNSGetQueryResultError::Failed => ResultCode::Failed,
        }
    }

    /// The stack error that this value stands for, if it is not `OK`.
    pub open spec fn spec_error(self) -> Option<dns::GetQueryResultError> {
        match self {
            DNSGetQueryResultError::OK => None,
            DNSGetQueryResultError::Pending => Some(dns::GetQueryResultError::Pending),
            DNSGetQueryResultError::Failed => Some(dns::GetQueryResultError::Failed),
        }
    }

    /// The outcome that a stack error stands for.
    pub open spec fn spec_from_error(e: dns::GetQueryResultError) -> Self {
        match e {
            dns::GetQueryResultError::Pending => DNSGetQueryResultError::Pending,
            dns::GetQueryResultError::Failed => DNSGetQueryResultError::Failed,
        }
    }

    /// The outcome of an operation of the stack.
    pub open spec fn spec_from_result(res: Result<(), dns::GetQueryResultError>) -> Self {
        match res {
            Ok(_) => DNSGetQueryResultError::OK,
            Err(e) => Self::spec_from_error(e),
        }
    }

    /// Converts back into the stack's own result type.
    pub fn into_result(self) -> (r: Result<(), dns::GetQueryResultError>)
        ensures
            r == (match self.spec_error() {
                None => Ok(()),
                Some(e) => Err(e),
            }),
    {
        match self {
            DNSGetQueryResultError::OK => Ok(()),
            DNSGetQueryResultError::Pending => Err(dns::GetQueryResultError::Pending),
            DNSGetQueryResultError::Failed => Err(dns::GetQueryResultError::Failed),
        }
    }

    /// The master result code of this outcome.
    pub fn result_code(self) -> (r: ResultCode)
        ensures
            r == self.spec_result_code(),
    {
        match self {
            DNSGetQueryResultError::OK => ResultCode::OK,
            DNSGetQueryResultError::Pending => ResultCode::Pending,
            DNSGetQueryResultError::Failed => ResultCode::Failed,
        }
    }
}

impl From<dns::GetQueryResultError> for DNSGetQueryResultError {
    fn from(e: dns::GetQueryResultError) -> (r: Self) {
        match e {
            dns::GetQueryResultError::Pending => DNSGetQueryResultError::Pending,
            dns::GetQueryResultError::Failed => DNSGetQueryResultError::Failed,
        }
    }
}

impl vstd::std_specs::convert::FromSpecImpl<dns::GetQueryResultError> for DNSGetQueryResultError {
    open spec fn obeys_from_spec() -> bool {
        true
    }

    open spec fn from_spec(e: dns::GetQueryResultError) -> Self {
        DNSGetQueryResultError::spec_from_error(e)
    }
}

impl From<Result<(), dns::GetQueryResultError>> for DNSGetQueryResultError {
    fn from(res: Result<(), dns::GetQueryResultError>) -> (r: Self) {
        match res {
            Ok(_) => DNSGetQueryResultError::OK,
            Err(e) => DNSGetQueryResultError::from(e),
        }
    }
}

impl vstd::std_specs::convert::FromSpecImpl<Result<(), dns::GetQueryResultError>> for DNSGetQueryResultError {
    open spec fn obeys_from_spec() -> bool {
        true
    }

    open spec fn from_spec(res: Result<(), dns::GetQueryResultError>) -> Self {
        DNSGetQueryResultError::spec_from_result(res)
    }
}

impl From<DNSGetQueryResultError> for ResultCode {
    fn from(e: DNSGetQueryResultError) -> (r: Self) {
        e.result_code()
    }
}

/// [`DNSGetQueryResultError`] loses nothing: a stack error converted into it and back is the
/// same error, every value survives the trip through the stack's result type,
/// and distinct values have distinct master result codes.
pub proof fn lemma_dns_get_query_result_error_lossless(e: dns::GetQueryResultError, v: DNSGetQueryResultError, u: DNSGetQueryResultError)
    ensures
        DNSGetQueryResultError::spec_from_error(e).spec_error() == Some(e),
        DNSGetQueryResultError::spec_from_result(
            match v.spec_error() {
                None => Ok(()),
                Some(err) => Err(err),
            },
        ) == v,
        v.spec_result_code() == u.spec_result_code() ==> v == u,
{
}

impl vstd::std_specs::convert::FromSpecImpl<DNSGetQueryResultError> for ResultCode {
    open spec fn obeys_from_spec() -> bool {
        true
    }

    open spec fn from_spec(e: DNSGetQueryResultError) -> Self {
        e.spec_result_code()
    }
}

} // verus!
