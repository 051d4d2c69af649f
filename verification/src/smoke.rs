//! The smoke test of screen capture under the application's runtime: a few frames within a time
//! limit, or a reason why not.
use crate::text;
use crate::text::push_decimal;
use vstd::prelude::*;

verus! {

/// Frames that the test wants to see.
pub const SMOKE_FRAMES: u32 = 3;

/// How long the test waits for them.
pub const SMOKE_LIMIT_NS: u64 = 10_000_000_000;

/// A call of the capture adapter.
#[derive(Debug, Clone, Copy, PartialEq, Eq, Structural)]
pub enum SmokeCall {
    New,
    Start,
    Stop,
}

impl SmokeCall {
    /// What the message says of a failure in this call.
    pub open spec fn text(self) -> Seq<char> {
        match self {
            SmokeCall::New => "new() failed: "@,
            SmokeCall::Start => "start() failed: "@,
            SmokeCall::Stop => "stop() failed: "@,
        }
    }
}

/// How the capture thread of the test ended.
#[derive(Debug)]
pub enum SmokeRun {
    /// It stopped after this many frames.
    Captured(u32),
    /// The capture adapter failed in one of its calls, with this text.
    Failed(SmokeCall, String),
    Panicked,
}

/// Decides whether the test waits for another frame, `elapsed_ns` after its start.
pub fn smoke_goes_on(elapsed_ns: u64, frames: u32) -> (r: bool)
    ensures
        r == (elapsed_ns < SMOKE_LIMIT_NS && frames < SMOKE_FRAMES),
{
    elapsed_ns < SMOKE_LIMIT_NS && frames < SMOKE_FRAMES
}

/// The message of a test that passed.
pub open spec fn pass_text(frames: u32) -> Seq<char> {
    "R10.2 PASS — "@ + text::decimal(frames as nat)
        + " frames captured under Tauri 2 runtime, no apartment conflict"@
}

/// The message of a test that failed.
pub open spec fn fail_text(why: Seq<char>) -> Seq<char> {
    "R10.2 FAIL — "@ + why
}

/// The reason when too few frames came.
pub open spec fn too_few_text(frames: u32) -> Seq<char> {
    "only "@ + text::decimal(frames as nat) + " frames in 10s (expected >= 3)"@
}

/// The verdict on a run of the test.
pub fn smoke_verdict(run: SmokeRun) -> (r: Result<String, String>)
    ensures
        match run {
            SmokeRun::Captured(frames) => if frames >= SMOKE_FRAMES {
                r matches Ok(s) && s@ == pass_text(frames)
            } else {
                r matches Err(s) && s@ == fail_text(too_few_text(frames))
            },
            SmokeRun::Failed(call, why) => r matches Err(s) && s@ == fail_text(call.text() + why@),
            SmokeRun::Panicked => r matches Err(s) && s@ == fail_text(
                "capture worker thread panicked"@,
            ),
        },
{
    match run {
        SmokeRun::Captured(frames) => {
            if frames >= SMOKE_FRAMES {
                let mut s = "R10.2 PASS — ".to_string();
                push_decimal(&mut s, frames as u64);
                s.append(" frames captured under Tauri 2 runtime, no apartment conflict");
                Ok(s)
            } else {
                let mut why = "only ".to_string();
                push_decimal(&mut why, frames as u64);
                why.append(" frames in 10s (expected >= 3)");
                Err(failed(why.as_str()))
            }
        },
        SmokeRun::Failed(call, why) => {
            let mut text = match call {
                SmokeCall::New => "new() failed: ".to_string(),
                SmokeCall::Start => "start() failed: ".to_string(),
                SmokeCall::Stop => "stop() failed: ".to_string(),
            };
            text.append(why.as_str());
            Err(failed(text.as_str()))
        },
        SmokeRun::Panicked => Err(failed("capture worker thread panicked")),
    }
}

/// The message of a test that failed.
fn failed(why: &str) -> (s: String)
    ensures
        s@ == fail_text(why@),
{
    let mut s = "R10.2 FAIL — ".to_string();
    s.append(why);
    s
}

/// The test goes on for ten seconds or until it has three frames, whichever comes first.
pub proof fn law_how_long_the_test_goes_on(elapsed_ns: u64, frames: u32, r: bool)
    requires
        call_ensures(smoke_goes_on, (elapsed_ns, frames), r),
    ensures
        r <==> elapsed_ns < 10_000_000_000 && frames < 3,
{
}

/// The test passes with three frames or more. A message of either kind says how many frames there
/// were; a failure of the adapter says in which call, and with which text.
pub proof fn law_what_the_test_says(run: SmokeRun, r: Result<String, String>)
    requires
        call_ensures(smoke_verdict, (run,), r),
    ensures
        r is Ok <==> (run matches SmokeRun::Captured(frames) && frames >= 3),
        run matches SmokeRun::Captured(frames) && frames >= 3 ==> r->Ok_0@ == "R10.2 PASS — "@
            + text::decimal(run->Captured_0 as nat)
            + " frames captured under Tauri 2 runtime, no apartment conflict"@,
        run matches SmokeRun::Captured(frames) && frames < 3 ==> r->Err_0@ == "R10.2 FAIL — "@ + (
        "only "@ + text::decimal(run->Captured_0 as nat) + " frames in 10s (expected >= 3)"@),
        run matches SmokeRun::Failed(SmokeCall::New, why) ==> r->Err_0@ == "R10.2 FAIL — "@ + (
        "new() failed: "@ + why@),
        run matches SmokeRun::Failed(SmokeCall::Start, why) ==> r->Err_0@ == "R10.2 FAIL — "@ + (
        "start() failed: "@ + why@),
        run matches SmokeRun::Failed(SmokeCall::Stop, why) ==> r->Err_0@ == "R10.2 FAIL — "@ + (
        "stop() failed: "@ + why@),
        run is Panicked ==> r->Err_0@ == "R10.2 FAIL — "@ + "capture worker thread panicked"@,
{
}

} // verus!
