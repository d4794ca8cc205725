//! The uniform envelope returned to the caller, and the decisions taken
//! before a download touches the network.
//!
//! Every top-level operation answers with the same envelope: a status code
//! for success, operation error, or "already in progress", the data, and a
//! message (empty on success). A download additionally refuses to start when
//! its output name is already taken, before any request is issued.

use vstd::prelude::*;
use vstd::string::StringExecFns;

verus! {

/// Status code of a completed operation.
pub const STATUS_OK: i32 = 0;

/// Status code of an operation that started but failed.
pub const STATUS_OPERATION_ERROR: i32 = 1;

/// Status code of an operation refused because one of its class is in flight.
pub const STATUS_ALREADY_IN_PROGRESS: i32 = 2;

/// The uniform envelope every top-level operation answers with.
pub struct Response<T> {
    pub status_code: i32,
    pub data: T,
    pub message: String,
}

/// The envelope of a completed operation: its data and an empty message.
pub fn ok_response<T>(data: T) -> (r: Response<T>)
    ensures
        r.status_code == STATUS_OK,
        r.data == data,
        r.message@ == Seq::<char>::empty(),
{
    Response { status_code: STATUS_OK, data, message: String::new() }
}

/// The envelope of an operation that started and failed: a placeholder value
/// and the failure's message.
pub fn operation_error_response<T>(empty: T, message: String) -> (r: Response<T>)
    ensures
        r.status_code == STATUS_OPERATION_ERROR,
        r.data == empty,
        r.message@ == message@,
{
    Response { status_code: STATUS_OPERATION_ERROR, data: empty, message }
}

/// The envelope of an operation refused at the admission gate because one of
/// the same class is already in flight: answered immediately, without waiting
/// for the running operation to finish.
pub fn already_in_progress_response<T>(empty: T, message: String) -> (r: Response<T>)
    ensures
        r.status_code == STATUS_ALREADY_IN_PROGRESS,
        r.data == empty,
        r.message@ == message@,
{
    Response { status_code: STATUS_ALREADY_IN_PROGRESS, data: empty, message }
}

/// The name of the container file a work is packaged into.
pub fn output_file_name(name: &str) -> (r: String)
    ensures
        r@ == name@ + ".epub"@,
{
    let mut file_name = String::new();
    file_name.append(name);
    file_name.append(".epub");
    proof {
        assert(file_name@ =~= name@ + ".epub"@);
    }
    file_name
}

/// Decide whether a download may begin writing `file_name`. The caller asks
/// the filesystem collaborator whether the name is taken and hands the answer
/// in; an existing file aborts the whole operation, with a descriptive
/// message, before any network request is issued.
pub fn check_output_available(file_name: &str, exists: bool) -> (r: Result<(), String>)
    ensures
        r is Ok <==> !exists,
        r matches Err(m) ==> m@ == file_name@ + " is already exists"@,
{
    if exists {
        let mut message = String::new();
        message.append(file_name);
        message.append(" is already exists");
        proof {
            assert(message@ =~= file_name@ + " is already exists"@);
        }
        Err(message)
    } else {
        Ok(())
    }
}

/// Whether a transport status code counts as success: exactly 200.
pub fn status_is_success(code: u16) -> (r: bool)
    ensures
        r == (code == 200),
{
    code == 200
}

} // verus!
