use crate::consts::{IMG_GEN_URL, SPEECH_URL, TRANSCRIPT_FILE, TXT_GEN_URL};
use crate::error::ErrorView;
use crate::models::{messages_of, ImageResponseView, TextResponseView};
use crate::naming::{out_name, text_name};
use crate::pipeline::{
    next, out_of_sequence, ActionView, EventView, Kind, PayloadView, PipelineView, SpeechOutput,
    Stage, WriteMode,
};
use crate::request::{
    bearer_header, image_payload, json_arguments, text_payload, upload_arguments,
};
use crate::strings::utf8_lossy;
use crate::transcript::transcript;
use vstd::prelude::*;
use vstd::utf8::encode_utf8;

verus! {

/// The actions that a pipeline asks for, one for each event, as the
/// events come in.
pub open spec fn run(p: PipelineView, events: Seq<EventView>) -> Seq<ActionView>
    decreases events.len(),
{
    if events.len() == 0 {
        Seq::empty()
    } else {
        seq![next(p, events[0]).1] + run(p.at(next(p, events[0]).0), events.drop_first())
    }
}

/// The stage of a pipeline after the events.
pub open spec fn stage_after(p: PipelineView, events: Seq<EventView>) -> Stage
    decreases events.len(),
{
    if events.len() == 0 {
        p.stage
    } else {
        stage_after(p.at(next(p, events[0]).0), events.drop_first())
    }
}

/// The place of a stage in the order of a run.
pub open spec fn rank(stage: Stage) -> nat {
    match stage {
        Stage::Ready => 0,
        Stage::Encoding => 1,
        Stage::Sending => 2,
        Stage::Decoding => 3,
        Stage::Fetching => 4,
        Stage::Writing => 5,
        Stage::Succeeded => 6,
        Stage::Failed => 7,
    }
}

/// How many of the actions hand a request to the transport.
pub open spec fn sends(actions: Seq<ActionView>) -> nat
    decreases actions.len(),
{
    if actions.len() == 0 {
        0
    } else {
        sends(actions.drop_first()) + if actions[0] is Send {
            1nat
        } else {
            0nat
        }
    }
}

/// How many of the actions fetch from an address.
pub open spec fn fetches(actions: Seq<ActionView>) -> nat
    decreases actions.len(),
{
    if actions.len() == 0 {
        0
    } else {
        fetches(actions.drop_first()) + if actions[0] is Fetch {
            1nat
        } else {
            0nat
        }
    }
}

/// Whether an action puts anything out: into a file or onto the terminal.
pub open spec fn is_output(action: ActionView) -> bool {
    action is Write || action is Print
}

/// A run asks for one action per event.
pub proof fn lemma_run_len(p: PipelineView, events: Seq<EventView>)
    ensures
        run(p, events).len() == events.len(),
    decreases events.len(),
{
    if events.len() > 0 {
        lemma_run_len(p.at(next(p, events[0]).0), events.drop_first());
    }
}

/// Every step moves a run forward in the order of its stages. A run that
/// has ended stays where it is.
pub proof fn lemma_step_advances(p: PipelineView, event: EventView)
    ensures
        p.stage is Succeeded || p.stage is Failed ==> next(p, event).0 == p.stage,
        !(p.stage is Succeeded || p.stage is Failed) ==> rank(next(p, event).0) > rank(p.stage),
{
}

/// A request goes to the transport only on entering the stage `Sending`,
/// an address is fetched only on entering `Fetching`, and anything is put
/// out only on entering `Writing`.
pub proof fn lemma_action_enters_stage(p: PipelineView, event: EventView)
    ensures
        next(p, event).1 is Send ==> next(p, event).0 is Sending,
        next(p, event).1 is Fetch ==> next(p, event).0 is Fetching,
        is_output(next(p, event).1) ==> next(p, event).0 is Writing,
        next(p, event).1 is Fail <==> (next(p, event).0 is Failed || p.stage is Succeeded),
{
}

/// A run that has failed asks for nothing more, whatever is reported.
pub proof fn lemma_failed_is_final(p: PipelineView, events: Seq<EventView>)
    requires
        p.stage is Failed,
    ensures
        run(p, events).len() == events.len(),
        forall|i: int|
            0 <= i < events.len() ==> #[trigger] run(p, events)[i] == ActionView::Fail(
                ErrorView::OutOfSequence,
            ),
        stage_after(p, events) is Failed,
    decreases events.len(),
{
    lemma_run_len(p, events);
    if events.len() > 0 {
        assert(p.at(Stage::Failed) == p);
        lemma_failed_is_final(p, events.drop_first());
        assert forall|i: int| 0 <= i < events.len() implies #[trigger] run(p, events)[i]
            == ActionView::Fail(ErrorView::OutOfSequence) by {
            if i > 0 {
                assert(run(p, events)[i] == run(p, events.drop_first())[i - 1]);
            }
        }
    }
}

/// Without a credential the first step fails with `MissingCredential`,
/// and no step of the run, whatever is reported to it, asks for anything:
/// nothing is sent, fetched or put out.
pub proof fn lemma_missing_credential(p: PipelineView, events: Seq<EventView>)
    requires
        p.stage is Ready,
        p.credential is None,
    ensures
        next(p, EventView::Start) == (
            Stage::Failed,
            ActionView::Fail(ErrorView::MissingCredential),
        ),
        run(p, events).len() == events.len(),
        forall|i: int| 0 <= i < events.len() ==> (#[trigger] run(p, events)[i]) is Fail,
{
    lemma_run_len(p, events);
    if events.len() > 0 {
        let q = p.at(next(p, events[0]).0);
        assert(q.stage is Failed);
        lemma_failed_is_final(q, events.drop_first());
        assert forall|i: int| 0 <= i < events.len() implies (#[trigger] run(p, events)[i])
            is Fail by {
            if i > 0 {
                assert(run(p, events)[i] == run(q, events.drop_first())[i - 1]);
            }
        }
    }
}

/// A response that cannot be decoded, or that holds no address where one
/// is needed, fails the run with `Decode`; nothing is put out then, nor
/// at any later step.
pub proof fn lemma_decode_failure(p: PipelineView, events: Seq<EventView>)
    requires
        p.stage is Decoding,
        events.len() > 0,
        match events[0] {
            EventView::ImageDecoded(response) => p.kind is ImageGenerate && (response matches Some(
                r,
            ) ==> r.urls.len() == 0),
            EventView::TextDecoded(response) => p.kind is TextComplete && response is None,
            _ => false,
        },
    ensures
        run(p, events).len() == events.len(),
        run(p, events)[0] == ActionView::Fail(ErrorView::Decode),
        forall|i: int| 0 <= i < events.len() ==> !is_output(#[trigger] run(p, events)[i]),
        stage_after(p, events) is Failed,
{
    lemma_run_len(p, events);
    let q = p.at(next(p, events[0]).0);
    assert(q.stage is Failed);
    lemma_failed_is_final(q, events.drop_first());
    assert forall|i: int| 0 <= i < events.len() implies !is_output(#[trigger] run(p, events)[i]) by {
        if i > 0 {
            assert(run(p, events)[i] == run(q, events.drop_first())[i - 1]);
        }
    }
}

/// Anything is put out only after all that comes before it has gone well:
/// the image has been fetched, the text response has been decoded, or the
/// transport has returned the transcript with success.
pub proof fn lemma_output_needs_success(p: PipelineView, event: EventView)
    requires
        is_output(next(p, event).1),
    ensures
        match p.kind {
            Kind::ImageGenerate => p.stage is Fetching && event is Fetched && event->Fetched_0
                is Ok,
            Kind::TextComplete => p.stage is Decoding && event is TextDecoded
                && event->TextDecoded_0 is Some,
            Kind::SpeechTranscribe => p.stage is Sending && event is Sent && event->success,
        },
{
}

/// From a stage on, a run sends at most one request to the transport and
/// fetches from at most one address; none where it is past the stage for
/// it.
pub proof fn lemma_one_request(p: PipelineView, events: Seq<EventView>)
    ensures
        sends(run(p, events)) <= 1,
        fetches(run(p, events)) <= 1,
        rank(p.stage) >= rank(Stage::Sending) ==> sends(run(p, events)) == 0,
        rank(p.stage) >= rank(Stage::Fetching) ==> fetches(run(p, events)) == 0,
    decreases events.len(),
{
    if events.len() > 0 {
        let q = p.at(next(p, events[0]).0);
        let rest = events.drop_first();
        lemma_one_request(q, rest);
        lemma_step_advances(p, events[0]);
        lemma_action_enters_stage(p, events[0]);
        assert(run(p, events).drop_first() =~= run(q, rest));
    }
}

/// The run of an image request where all goes well: the payload of the
/// prompt is encoded, the body is sent to the image endpoint with the
/// credential, the response is decoded, the first address in it is
/// fetched, and the bytes that come back are written, as they are and in
/// place of what was there, to the file named after the prompt.
pub proof fn lemma_image_run(
    p: PipelineView,
    key: Seq<char>,
    body: Seq<char>,
    stdout: Seq<u8>,
    stderr: Seq<u8>,
    response: ImageResponseView,
    bytes: Seq<u8>,
)
    requires
        p.stage is Ready,
        p.kind is ImageGenerate,
        p.credential == Some(key),
        response.urls.len() > 0,
    ensures
        run(
            p,
            seq![
                EventView::Start,
                EventView::Encoded(Some(body)),
                EventView::Sent { success: true, stdout, stderr },
                EventView::ImageDecoded(Some(response)),
                EventView::Fetched(Ok(bytes)),
                EventView::Written(true),
            ],
        ) == seq![
            ActionView::Encode(PayloadView::Image(image_payload(p.input))),
            ActionView::Send(json_arguments(IMG_GEN_URL@, body, bearer_header(key))),
            ActionView::DecodeImage(utf8_lossy(stdout)),
            ActionView::Fetch(response.urls[0]),
            ActionView::Write {
                name: out_name(p.input, ".png"@),
                contents: bytes,
                mode: WriteMode::Truncate,
            },
            ActionView::Finish,
        ],
{
    let events = seq![
        EventView::Start,
        EventView::Encoded(Some(body)),
        EventView::Sent { success: true, stdout, stderr },
        EventView::ImageDecoded(Some(response)),
        EventView::Fetched(Ok(bytes)),
        EventView::Written(true),
    ];
    lemma_run_six(p, events);
}

/// The run of a text request where all goes well: the payload of the
/// prompt is encoded, the body is sent to the text endpoint with the
/// credential, the response is decoded, and the exchange, the prompt and
/// then each answer in the order of the response, is written after what
/// the transcript file holds.
pub proof fn lemma_text_run(
    p: PipelineView,
    key: Seq<char>,
    body: Seq<char>,
    stdout: Seq<u8>,
    stderr: Seq<u8>,
    response: TextResponseView,
)
    requires
        p.stage is Ready,
        p.kind is TextComplete,
        p.credential == Some(key),
    ensures
        run(
            p,
            seq![
                EventView::Start,
                EventView::Encoded(Some(body)),
                EventView::Sent { success: true, stdout, stderr },
                EventView::TextDecoded(Some(response)),
                EventView::Written(true),
            ],
        ) == seq![
            ActionView::Encode(PayloadView::Text(text_payload(p.input))),
            ActionView::Send(json_arguments(TXT_GEN_URL@, body, bearer_header(key))),
            ActionView::DecodeText(utf8_lossy(stdout)),
            ActionView::Write {
                name: TRANSCRIPT_FILE@,
                contents: encode_utf8(transcript(p.input, messages_of(response.choices))),
                mode: WriteMode::Append,
            },
            ActionView::Finish,
        ],
{
    let events = seq![
        EventView::Start,
        EventView::Encoded(Some(body)),
        EventView::Sent { success: true, stdout, stderr },
        EventView::TextDecoded(Some(response)),
        EventView::Written(true),
    ];
    lemma_run_five(p, events);
}

/// The run of a speech request where all goes well: the audio file is
/// uploaded with the credential, and the text that comes back is shown on
/// the terminal, or written, in place of what was there, to the file
/// named after the audio file.
pub proof fn lemma_speech_run(p: PipelineView, key: Seq<char>, stdout: Seq<u8>, stderr: Seq<u8>)
    requires
        p.stage is Ready,
        p.kind is SpeechTranscribe,
        p.credential == Some(key),
    ensures
        run(
            p,
            seq![
                EventView::Start,
                EventView::Sent { success: true, stdout, stderr },
                EventView::Written(true),
            ],
        ) == seq![
            ActionView::Send(upload_arguments(SPEECH_URL@, bearer_header(key), p.input)),
            match p.speech_output {
                SpeechOutput::Terminal => ActionView::Print(utf8_lossy(stdout)),
                SpeechOutput::File => ActionView::Write {
                    name: text_name(p.input),
                    contents: encode_utf8(utf8_lossy(stdout)),
                    mode: WriteMode::Truncate,
                },
            },
            ActionView::Finish,
        ],
{
    let events = seq![
        EventView::Start,
        EventView::Sent { success: true, stdout, stderr },
        EventView::Written(true),
    ];
    lemma_run_three(p, events);
}

/// A transport that reports a failure ends the run with its diagnostic;
/// the response is not decoded and nothing is put out.
pub proof fn lemma_transport_failure(
    p: PipelineView,
    stdout: Seq<u8>,
    stderr: Seq<u8>,
    events: Seq<EventView>,
)
    requires
        p.stage is Sending,
        events.len() > 0,
        events[0] == (EventView::Sent { success: false, stdout, stderr }),
    ensures
        run(p, events).len() == events.len(),
        run(p, events)[0] == ActionView::Fail(ErrorView::TransportFailure(utf8_lossy(stderr))),
        forall|i: int| 0 <= i < events.len() ==> (#[trigger] run(p, events)[i]) is Fail,
{
    lemma_run_len(p, events);
    let q = p.at(next(p, events[0]).0);
    assert(q.stage is Failed);
    lemma_failed_is_final(q, events.drop_first());
    assert forall|i: int| 0 <= i < events.len() implies (#[trigger] run(p, events)[i]) is Fail by {
        if i > 0 {
            assert(run(p, events)[i] == run(q, events.drop_first())[i - 1]);
        }
    }
}

/// The run on one event is its step.
proof fn lemma_run_one(p: PipelineView, events: Seq<EventView>)
    requires
        events.len() == 1,
    ensures
        run(p, events) == seq![next(p, events[0]).1],
{
    assert(events.drop_first().len() == 0);
    assert(run(p.at(next(p, events[0]).0), events.drop_first()) =~= Seq::<ActionView>::empty());
    assert(run(p, events) =~= seq![next(p, events[0]).1]);
}

/// The run on three events, step by step.
proof fn lemma_run_three(p: PipelineView, events: Seq<EventView>)
    requires
        events.len() == 3,
    ensures
        run(p, events) == ({
            let s0 = next(p, events[0]);
            let s1 = next(p.at(s0.0), events[1]);
            let s2 = next(p.at(s1.0), events[2]);
            seq![s0.1, s1.1, s2.1]
        }),
{
    let s0 = next(p, events[0]);
    let s1 = next(p.at(s0.0), events[1]);
    let s2 = next(p.at(s1.0), events[2]);
    let e1 = events.drop_first();
    let e2 = e1.drop_first();
    assert(e1[0] == events[1]);
    assert(e2[0] == events[2]);
    assert(p.at(s0.0).at(s1.0) == p.at(s1.0));
    lemma_run_one(p.at(s1.0), e2);
    assert(run(p.at(s0.0), e1) =~= seq![s1.1] + run(p.at(s1.0), e2));
    assert(run(p, events) =~= seq![s0.1] + run(p.at(s0.0), e1));
    assert(run(p, events) =~= seq![s0.1, s1.1, s2.1]);
}

/// The run on five events, step by step.
proof fn lemma_run_five(p: PipelineView, events: Seq<EventView>)
    requires
        events.len() == 5,
    ensures
        run(p, events) == ({
            let s0 = next(p, events[0]);
            let s1 = next(p.at(s0.0), events[1]);
            let s2 = next(p.at(s1.0), events[2]);
            let s3 = next(p.at(s2.0), events[3]);
            let s4 = next(p.at(s3.0), events[4]);
            seq![s0.1, s1.1, s2.1, s3.1, s4.1]
        }),
{
    let s0 = next(p, events[0]);
    let s1 = next(p.at(s0.0), events[1]);
    let rest = events.drop_first().drop_first();
    assert(p.at(s0.0).at(s1.0) == p.at(s1.0));
    assert(rest.len() == 3);
    lemma_run_three(p.at(s1.0), rest);
    assert(run(p.at(s0.0), events.drop_first()) =~= seq![s1.1] + run(p.at(s1.0), rest));
    assert(run(p, events) =~= seq![s0.1] + (seq![s1.1] + run(p.at(s1.0), rest)));
}

/// The run on six events, step by step.
proof fn lemma_run_six(p: PipelineView, events: Seq<EventView>)
    requires
        events.len() == 6,
    ensures
        run(p, events) == ({
            let s0 = next(p, events[0]);
            let s1 = next(p.at(s0.0), events[1]);
            let s2 = next(p.at(s1.0), events[2]);
            let s3 = next(p.at(s2.0), events[3]);
            let s4 = next(p.at(s3.0), events[4]);
            let s5 = next(p.at(s4.0), events[5]);
            seq![s0.1, s1.1, s2.1, s3.1, s4.1, s5.1]
        }),
{
    let s0 = next(p, events[0]);
    let rest = events.drop_first();
    assert(rest.len() == 5);
    lemma_run_five(p.at(s0.0), rest);
    let s1 = next(p.at(s0.0), rest[0]);
    let s2 = next(p.at(s0.0).at(s1.0), rest[1]);
    let s3 = next(p.at(s0.0).at(s2.0), rest[2]);
    let s4 = next(p.at(s0.0).at(s3.0), rest[3]);
    assert(p.at(s0.0).at(s1.0) == p.at(s1.0));
    assert(p.at(s0.0).at(s2.0) == p.at(s2.0));
    assert(p.at(s0.0).at(s3.0) == p.at(s3.0));
    assert(p.at(s0.0).at(s4.0) == p.at(s4.0));
    assert(run(p, events) =~= seq![s0.1] + run(p.at(s0.0), rest));
}

} // verus!
