use vstd::prelude::*;
use crate::model::{
    fails_with, AuthRequest, Failure, GatewayError, NotificationPayload, SendMessageRequest,
    UploadMediaRequest,
};

verus! {

/// The Unicode `White_Space` property.
pub open spec fn is_white_space(c: char) -> bool {
    let n = c as u32;
    (0x9 <= n && n <= 0xd) || n == 0x20 || n == 0x85 || n == 0xa0 || n == 0x1680 || (0x2000 <= n
        && n <= 0x200a) || n == 0x2028 || n == 0x2029 || n == 0x202f || n == 0x205f || n == 0x3000
}

/// A text is blank when nothing is left of it once surrounding whitespace is trimmed,
/// that is when every character of it is whitespace.
pub open spec fn blank(s: Seq<char>) -> bool {
    forall|i: int| 0 <= i < s.len() ==> is_white_space(#[trigger] s[i])
}

/// Whether `c` is a whitespace character.
pub fn is_white_space_char(c: char) -> (r: bool)
    ensures
        r == is_white_space(c),
{
    let n = c as u32;
    (0x9 <= n && n <= 0xd) || n == 0x20 || n == 0x85 || n == 0xa0 || n == 0x1680 || (0x2000 <= n
        && n <= 0x200a) || n == 0x2028 || n == 0x2029 || n == 0x202f || n == 0x205f || n == 0x3000
}

/// Whether `s` is empty after trimming whitespace from both ends.
pub fn is_blank(s: &str) -> (r: bool)
    ensures
        r == blank(s@),
{
    let n = s.unicode_len();
    let mut i: usize = 0;
    while i < n
        invariant
            n == s@.len(),
            i <= n,
            forall|j: int| 0 <= j < i ==> is_white_space(#[trigger] s@[j]),
        decreases n - i,
    {
        if !is_white_space_char(s.get_char(i)) {
            return false;
        }
        i = i + 1;
    }
    true
}

/// Credentials are well formed when neither field is blank.
pub open spec fn credentials_ok(c: &AuthRequest) -> bool {
    !blank(c.email@) && !blank(c.password@)
}

/// Fails with `InvalidInput` when the email or the password is blank.
pub fn validate_credentials(c: &AuthRequest) -> (r: Result<(), GatewayError>)
    ensures
        r is Ok <==> credentials_ok(c),
        r is Err ==> fails_with(r, Failure::InvalidInput("Email and password are required"@)),
{
    if is_blank(c.email.as_str()) || is_blank(c.password.as_str()) {
        return Err(GatewayError::InvalidInput(String::from_str("Email and password are required")));
    }
    Ok(())
}

/// Fails with `InvalidInput` when the message body is blank.
pub fn validate_outbound_message(m: &SendMessageRequest) -> (r: Result<(), GatewayError>)
    ensures
        r is Ok <==> !blank(m.message@),
        r is Err ==> fails_with(r, Failure::InvalidInput("Message cannot be empty"@)),
{
    if is_blank(m.message.as_str()) {
        return Err(GatewayError::InvalidInput(String::from_str("Message cannot be empty")));
    }
    Ok(())
}

/// Fails with `InvalidInput` when the payload holds no bytes.
pub fn validate_media_asset(a: &UploadMediaRequest) -> (r: Result<(), GatewayError>)
    ensures
        r is Ok <==> a.bytes@.len() > 0,
        r is Err ==> fails_with(r, Failure::InvalidInput("File payload is empty"@)),
{
    if a.bytes.len() == 0 {
        return Err(GatewayError::InvalidInput(String::from_str("File payload is empty")));
    }
    Ok(())
}

/// Fails with `InvalidInput` when the title is blank; the body may be anything.
pub fn validate_notification(n: &NotificationPayload) -> (r: Result<(), GatewayError>)
    ensures
        r is Ok <==> !blank(n.title@),
        r is Err ==> fails_with(r, Failure::InvalidInput("Notification title is required"@)),
{
    if is_blank(n.title.as_str()) {
        return Err(GatewayError::InvalidInput(String::from_str("Notification title is required")));
    }
    Ok(())
}

} // verus!
