//! How long file operations may take and wait. Times are in milliseconds on one clock
//! of the caller's.

use crate::files::service::{
    self, FileService, DEFAULT_GEMINI_PROCESSING_TIMEOUT, FILE_TIMEOUT, GEMINI_FILE_POLL_INTERVAL,
    GEMINI_VIDEO_FILE_TIMEOUT, QWEN_FILE_POLL_INTERVAL, QWEN_FILE_PROCESSING_TIMEOUT,
};
use crate::files::types::{self, ProviderFileRef};
use crate::protocol::error;
use crate::protocol::{LlmError, LlmErrorView, ProviderProfile};
use crate::text;
use crate::views;
use vstd::prelude::*;

verus! {

broadcast use crate::views::group_views;

pub open spec fn lesser(a: u64, b: u64) -> u64 {
    if a < b {
        a
    } else {
        b
    }
}

fn least(a: u64, b: u64) -> (result: u64)
    ensures
        result == lesser(a, b),
{
    if a < b {
        a
    } else {
        b
    }
}

/// The deadline, or an earlier one that the whole request has.
pub open spec fn within(deadline: u64, request: Option<u64>) -> u64 {
    match request {
        Some(request) => lesser(deadline, request),
        None => deadline,
    }
}

fn capped(deadline: u64, request: Option<u64>) -> (result: u64)
    ensures
        result == within(deadline, request),
{
    match request {
        Some(request) => least(deadline, request),
        None => deadline,
    }
}

/// Whether a media type is a video's.
pub open spec fn video(media_type: Seq<char>) -> bool {
    "video/"@.is_prefix_of(text::lower(media_type))
}

/// When an upload that started then has to be over.
pub open spec fn upload_end(service: FileService, media_type: Seq<char>, started: u64) -> Result<
    u64,
    LlmErrorView,
> {
    let (upload, _) = service::gemini_times(
        service.gemini_upload_timeout,
        service.gemini_processing_timeout,
        media_type,
    );
    if started + upload > u64::MAX {
        Err(error::invalid_view("Gemini upload timeout is too large"@))
    } else {
        Ok(within((started + upload) as u64, service.gemini_request_deadline))
    }
}

/// When the processing of a file has to be over whose upload started then, and which
/// is pending now. A video's upload and processing together have two hours.
pub open spec fn processing_end(
    service: FileService,
    media_type: Seq<char>,
    started: u64,
    now: u64,
) -> Result<u64, LlmErrorView> {
    let (_, wait) = service::gemini_times(
        service.gemini_upload_timeout,
        service.gemini_processing_timeout,
        media_type,
    );
    if now + wait > u64::MAX {
        Err(error::invalid_view("Gemini processing timeout is too large"@))
    } else {
        let end = (now + wait) as u64;
        Ok(
            within(
                if video(media_type) && started + GEMINI_VIDEO_FILE_TIMEOUT < end {
                    (started + GEMINI_VIDEO_FILE_TIMEOUT) as u64
                } else {
                    end
                },
                service.gemini_request_deadline,
            ),
        )
    }
}

/// When a resumed wait has to be over.
pub open spec fn resumed_end(service: FileService, now: u64) -> Result<u64, LlmErrorView> {
    let wait = match service.gemini_processing_timeout {
        Some(timeout) => timeout,
        None => DEFAULT_GEMINI_PROCESSING_TIMEOUT,
    };
    if now + wait > u64::MAX {
        Err(error::invalid_view("Gemini processing timeout is too large"@))
    } else {
        Ok((now + wait) as u64)
    }
}

/// What authenticating leaves of the time of a request that was made then; nothing
/// where it is over.
pub open spec fn authenticated_left(service: FileService, made: u64, now: u64) -> Option<u64> {
    if service.profile.auth is None {
        Some(FILE_TIMEOUT)
    } else {
        let end = if made + FILE_TIMEOUT > u64::MAX {
            u64::MAX
        } else {
            (made + FILE_TIMEOUT) as u64
        };
        let left = service::left(within(end, service.gemini_request_deadline), now);
        if left == 0 {
            None
        } else {
            Some(left)
        }
    }
}

/// Why a file operation cannot be authenticated.
pub open spec fn unauthenticated(profile: ProviderProfile, registered: bool) -> Option<
    LlmErrorView,
> {
    if profile.auth is Some && !registered {
        Some(
            error::unsupported_view(
                "no authenticator is registered for file operations on profile "@
                    + text::debug_text(profile.profile_name@),
            ),
        )
    } else {
        None
    }
}

impl<'a> FileService<'a> {
    /// Whether a request is to be authenticated, given whether an authenticator is
    /// registered. One that would have to be and cannot be is refused.
    pub fn check_authenticator(&self, registered: bool) -> (result: Result<bool, LlmError>)
        ensures
            views::res(result) == (match unauthenticated(*self.profile, registered) {
                Some(error) => Err::<bool, LlmErrorView>(error),
                None => Ok(self.profile.auth is Some),
            }),
    {
        if self.profile.auth.is_none() {
            return Ok(false);
        }
        if !registered {
            return Err(
                error::unsupported(
                    &text::cat2(
                        "no authenticator is registered for file operations on profile ",
                        &text::debug(&self.profile.profile_name),
                    ),
                ),
            );
        }
        Ok(true)
    }

    /// The time that is left for a request once it is authenticated.
    pub fn request_left(&self, made: u64, now: u64) -> (result: Option<u64>)
        ensures
            result == authenticated_left(*self, made, now),
    {
        if self.profile.auth.is_none() {
            return Some(FILE_TIMEOUT);
        }
        let end = capped(made.saturating_add(FILE_TIMEOUT), self.gemini_request_deadline);
        if now < end {
            Some(end - now)
        } else {
            None
        }
    }

    /// When an upload that started then has to be over.
    pub fn gemini_upload_deadline(&self, media_type: &str, started: u64) -> (result: Result<
        u64,
        LlmError,
    >)
        ensures
            views::res(result) == upload_end(*self, media_type@, started),
    {
        let (upload, _) = self.gemini_timeouts(media_type);
        match started.checked_add(upload) {
            Some(end) => Ok(capped(end, self.gemini_request_deadline)),
            None => Err(error::invalid("Gemini upload timeout is too large")),
        }
    }

    /// When the processing of a pending file has to be over.
    pub fn gemini_processing_deadline(&self, media_type: &str, started: u64, now: u64) -> (result:
        Result<u64, LlmError>)
        ensures
            views::res(result) == processing_end(*self, media_type@, started, now),
    {
        let (_, wait) = self.gemini_timeouts(media_type);
        let end = match now.checked_add(wait) {
            Some(end) => end,
            None => return Err(error::invalid("Gemini processing timeout is too large")),
        };
        let end = if text::starts_with(&text::to_lower(media_type), "video/") {
            least(end, started.saturating_add(GEMINI_VIDEO_FILE_TIMEOUT))
        } else {
            end
        };
        Ok(capped(end, self.gemini_request_deadline))
    }

    /// When a resumed wait has to be over.
    pub fn gemini_resume_deadline(&self, now: u64) -> (result: Result<u64, LlmError>)
        ensures
            views::res(result) == resumed_end(*self, now),
    {
        let wait = match self.gemini_processing_timeout {
            Some(timeout) => timeout,
            None => DEFAULT_GEMINI_PROCESSING_TIMEOUT,
        };
        match now.checked_add(wait) {
            Some(end) => Ok(end),
            None => Err(error::invalid("Gemini processing timeout is too large")),
        }
    }
}

/// The wait for a pending file, at most so long; or the error that keeps the file
/// recoverable.
pub open spec fn processing_wait(
    deadline: u64,
    now: u64,
    timeout: Seq<char>,
    pending: types::ProviderFileRefView,
    most: u64,
) -> Result<u64, LlmErrorView> {
    if service::left(deadline, now) == 0 {
        Err(
            LlmErrorView::ProviderFileProcessing {
                message: "Gemini file remains PROCESSING after "@ + timeout,
                file: types::source_of(pending),
            },
        )
    } else {
        Ok(lesser(service::left(deadline, now), most))
    }
}

/// How long a poll of a pending Gemini file may take. `timeout` is the displayed
/// limit.
pub fn gemini_poll_timeout(deadline: u64, now: u64, timeout: &str, pending: &ProviderFileRef) -> (result:
    Result<u64, LlmError>)
    ensures
        views::res(result) == processing_wait(deadline, now, timeout@, pending@, FILE_TIMEOUT),
{
    let left = service::gemini_processing_remaining(deadline, now, timeout, pending)?;
    Ok(least(left, FILE_TIMEOUT))
}

/// How long to wait before a pending Gemini file is polled again.
pub fn gemini_poll_delay(deadline: u64, now: u64, timeout: &str, pending: &ProviderFileRef) -> (result:
    Result<u64, LlmError>)
    ensures
        views::res(result) == processing_wait(
            deadline,
            now,
            timeout@,
            pending@,
            GEMINI_FILE_POLL_INTERVAL,
        ),
{
    let left = service::gemini_processing_remaining(deadline, now, timeout, pending)?;
    Ok(least(left, GEMINI_FILE_POLL_INTERVAL))
}

/// The error of a call that did not come back in time, which keeps the file
/// recoverable.
pub fn gemini_processing_expired(pending: &ProviderFileRef, timeout: &str) -> (error: LlmError)
    ensures
        error@ == (LlmErrorView::ProviderFileProcessing {
            message: "Gemini file processing timed out after "@ + timeout@,
            file: types::source_of(pending@),
        }),
{
    service::gemini_processing_unresolved(
        pending,
        &text::cat2("Gemini file processing timed out after ", timeout),
    )
}

/// When Qwen's parsing has to be over: after the caller's time, and ten minutes at
/// most.
pub open spec fn parsing_end(timeout: Option<u64>, now: u64) -> u64 {
    let wait = match timeout {
        Some(timeout) => lesser(timeout, QWEN_FILE_PROCESSING_TIMEOUT),
        None => QWEN_FILE_PROCESSING_TIMEOUT,
    };
    if now + wait > u64::MAX {
        u64::MAX
    } else {
        (now + wait) as u64
    }
}

pub fn qwen_deadline(timeout: Option<u64>, now: u64) -> (deadline: u64)
    ensures
        deadline == parsing_end(timeout, now),
{
    let wait = match timeout {
        Some(timeout) => least(timeout, QWEN_FILE_PROCESSING_TIMEOUT),
        None => QWEN_FILE_PROCESSING_TIMEOUT,
    };
    now.saturating_add(wait)
}

/// How long a poll may take, and how long to wait after one that came too early.
#[derive(Debug, Clone, Copy, PartialEq, Eq, Structural)]
pub struct QwenWait {
    pub request: u64,
    pub delay: u64,
}

impl DeepView for QwenWait {
    type V = QwenWait;

    open spec fn deep_view(&self) -> QwenWait {
        *self
    }
}

/// The next poll of Qwen's parsing, or the timeout.
pub fn qwen_poll_wait(deadline: u64, now: u64) -> (result: Result<QwenWait, LlmError>)
    ensures
        views::res(result) == (if service::left(deadline, now) == 0 {
            Err::<QwenWait, LlmErrorView>(
                LlmErrorView::TransportTimeout { message: "Qwen file parsing timed out"@ },
            )
        } else {
            Ok(
                QwenWait {
                    request: lesser(service::left(deadline, now), FILE_TIMEOUT),
                    delay: lesser(service::left(deadline, now), QWEN_FILE_POLL_INTERVAL),
                },
            )
        }),
{
    if now >= deadline {
        return Err(
            LlmError::TransportTimeout { message: "Qwen file parsing timed out".to_owned() },
        );
    }
    let left = deadline - now;
    Ok(
        QwenWait {
            request: least(left, FILE_TIMEOUT),
            delay: least(left, QWEN_FILE_POLL_INTERVAL),
        },
    )
}

/// No wait goes past the deadline, and each leads on: a wait that is granted is not
/// empty.
pub proof fn a_wait_ends_by_its_deadline(
    deadline: u64,
    now: u64,
    timeout: Seq<char>,
    pending: types::ProviderFileRefView,
    most: u64,
)
    requires
        most > 0,
    ensures
        processing_wait(deadline, now, timeout, pending, most) matches Ok(wait) ==> 0 < wait && now
            + wait <= deadline,
        processing_wait(deadline, now, timeout, pending, most) is Ok <==> now < deadline,
{
}

/// The upload and the processing of a video have two hours together.
pub proof fn a_video_has_two_hours(service: FileService, media_type: Seq<char>, started: u64, now: u64)
    requires
        video(media_type),
    ensures
        upload_end(service, media_type, started) matches Ok(end) ==> end <= started
            + GEMINI_VIDEO_FILE_TIMEOUT,
        processing_end(service, media_type, started, now) matches Ok(end) ==> end <= started
            + GEMINI_VIDEO_FILE_TIMEOUT,
{
}

} // verus!
