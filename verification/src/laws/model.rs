//! Laws of the values that forge operations take and give back.
use vstd::prelude::*;

use crate::model::{repo_slug, ChangeState, CiStatus, ForgeError, ForgeKind, RepoRef};
use crate::outside::status_reason;
use crate::rest::HttpStatus;
use crate::text::decimal;

verus! {

/// Kinds of forge have the wire numbers 0, 1 and 2; any other number stands for no kind.
pub proof fn law_forge_kind_numbers(number: i32, kind: ForgeKind)
    requires
        call_ensures(ForgeKind::from_wire, (number,), kind),
    ensures
        kind == ForgeKind::Github <==> number == 1,
        kind == ForgeKind::Gitlab <==> number == 2,
        kind == ForgeKind::Unspecified <==> number != 1 && number != 2,
{
    assert(ForgeKind::Github.wire() == 1 && ForgeKind::Gitlab.wire() == 2);
}

/// Pipeline statuses have the wire numbers from 0 to 6, each its own.
pub proof fn law_ci_status_numbers(status: CiStatus, number: i32)
    requires
        call_ensures(CiStatus::to_wire, (status,), number),
    ensures
        status == CiStatus::Unspecified <==> number == 0,
        status == CiStatus::NoPipeline <==> number == 1,
        status == CiStatus::Pending <==> number == 2,
        status == CiStatus::Running <==> number == 3,
        status == CiStatus::Success <==> number == 4,
        status == CiStatus::Failed <==> number == 5,
        status == CiStatus::Canceled <==> number == 6,
{
}

/// Change states have the wire numbers from 0 to 3, each its own.
pub proof fn law_change_state_numbers(state: ChangeState, number: i32)
    requires
        call_ensures(ChangeState::to_wire, (state,), number),
    ensures
        state == ChangeState::Unspecified <==> number == 0,
        state == ChangeState::Open <==> number == 1,
        state == ChangeState::Merged <==> number == 2,
        state == ChangeState::Closed <==> number == 3,
{
}

/// The full name of a repository is its owner and its name, with a slash between them.
pub proof fn law_full_name(repo: &RepoRef, slug: String)
    requires
        call_ensures(repo_slug, (repo,), slug),
    ensures
        slug@ == repo.owner@ + "/"@ + repo.name@,
{
}

/// An error gives back the message that it was made with.
pub proof fn law_error_keeps_its_message(message: String, e: ForgeError, text: String)
    requires
        call_ensures(ForgeError::msg, (message,), e),
        call_ensures(ForgeError::to_text, (&e,), text),
    ensures
        e.message@ == message@,
        text@ == message@,
{
}

/// A status is one of the numbers from 100 to 999. It gives that number back, says success just
/// from 200 to 299, and is told as its number, a space and the reason phrase.
pub proof fn law_status(
    code: u16,
    made: Option<HttpStatus>,
    number: u16,
    success: bool,
    text: String,
)
    requires
        call_ensures(HttpStatus::new, (code,), made),
        made matches Some(s) ==> call_ensures(HttpStatus::code, (&s,), number) && call_ensures(
            HttpStatus::is_success,
            (&s,),
            success,
        ) && call_ensures(HttpStatus::to_text, (&s,), text),
    ensures
        made is Some <==> 100 <= code <= 999,
        made matches Some(s) ==> s.number() == code && number == code && (success <==> 200 <= code
            <= 299) && text@ == decimal(code as nat) + " "@ + status_reason(code),
{
}

} // verus!
