use crate::models::{choices_view, messages_of, CompletionChoice, MessageView};
use crate::operation::Operation;
use vstd::prelude::*;
use vstd::string::*;

verus! {

/// One line of the transcript: who spoke, the mark ` ::: `, what was said,
/// and a line break.
pub open spec fn line(speaker: Seq<char>, text: Seq<char>) -> Seq<char> {
    speaker + " ::: "@ + text + "\n"@
}

/// The lines of the answers, one per message, in order.
pub open spec fn answer_lines(messages: Seq<MessageView>) -> Seq<char>
    decreases messages.len(),
{
    if messages.len() == 0 {
        Seq::empty()
    } else {
        answer_lines(messages.drop_last()) + line(messages.last().role, messages.last().content)
    }
}

/// What one exchange adds to the transcript: the line of the user's
/// prompt, then the lines of the answers.
pub open spec fn transcript(prompt: Seq<char>, messages: Seq<MessageView>) -> Seq<char> {
    line("user"@, prompt) + answer_lines(messages)
}

/// How many line breaks a text holds.
pub open spec fn line_breaks(text: Seq<char>) -> nat
    decreases text.len(),
{
    if text.len() == 0 {
        0
    } else {
        line_breaks(text.drop_last()) + if text.last() == '\n' {
            1nat
        } else {
            0nat
        }
    }
}

/// No message holds a line break, neither in its role nor in its content.
pub open spec fn single_lined(messages: Seq<MessageView>) -> bool {
    forall|i: int|
        0 <= i < messages.len() ==> !(#[trigger] messages[i]).role.contains('\n')
            && !messages[i].content.contains('\n')
}

impl Operation {
    /// Appends one exchange to `out`: the prompt and the answers to it.
    /// What `out` held before stays in front, unchanged.
    pub fn write_responses(responses: &Vec<CompletionChoice>, prompt: &str, out: &mut String)
        ensures
            final(out)@ == old(out)@ + transcript(prompt@, messages_of(choices_view(responses@))),
    {
        let ghost messages = messages_of(choices_view(responses@));
        out.append("user");
        out.append(" ::: ");
        out.append(prompt);
        out.append("\n");
        assert(out@ =~= old(out)@ + line("user"@, prompt@));
        let mut i: usize = 0;
        while i < responses.len()
            invariant
                i <= responses.len(),
                messages == messages_of(choices_view(responses@)),
                out@ == old(out)@ + line("user"@, prompt@) + answer_lines(messages.take(i as int)),
            decreases responses.len() - i,
        {
            let message = responses[i].message();
            let ghost before = out@;
            out.append(message.role.as_str());
            out.append(" ::: ");
            out.append(message.content.as_str());
            out.append("\n");
            proof {
                assert(messages.take(i + 1).drop_last() =~= messages.take(i as int));
                assert(messages.take(i + 1).last() == messages[i as int]);
                assert(out@ =~= before + line(messages[i as int].role, messages[i as int].content));
            }
            i += 1;
        }
        assert(messages.take(responses.len() as int) =~= messages);
        assert(out@ =~= old(out)@ + transcript(prompt@, messages));
    }
}

/// An exchange without answers is the user's line alone.
pub proof fn lemma_transcript_empty(prompt: Seq<char>)
    ensures
        transcript(prompt, Seq::empty()) == line("user"@, prompt),
{
    assert(transcript(prompt, Seq::empty()) =~= line("user"@, prompt));
}

/// One more answer adds its line at the end and changes nothing before it.
pub proof fn lemma_transcript_push(
    prompt: Seq<char>,
    messages: Seq<MessageView>,
    message: MessageView,
)
    ensures
        transcript(prompt, messages.push(message)) == transcript(prompt, messages) + line(
            message.role,
            message.content,
        ),
{
    assert(messages.push(message).drop_last() =~= messages);
    assert(transcript(prompt, messages.push(message)) =~= transcript(prompt, messages) + line(
        message.role,
        message.content,
    ));
}

/// Line breaks add up over concatenation.
pub proof fn lemma_line_breaks_add(a: Seq<char>, b: Seq<char>)
    ensures
        line_breaks(a + b) == line_breaks(a) + line_breaks(b),
    decreases b.len(),
{
    if b.len() == 0 {
        assert(a + b =~= a);
    } else {
        assert((a + b).drop_last() =~= a + b.drop_last());
        lemma_line_breaks_add(a, b.drop_last());
    }
}

/// A text that holds no line break counts none.
pub proof fn lemma_line_breaks_none(text: Seq<char>)
    requires
        !text.contains('\n'),
    ensures
        line_breaks(text) == 0,
    decreases text.len(),
{
    if text.len() > 0 {
        assert(text.last() == text[text.len() - 1]);
        assert forall|i: int| 0 <= i < text.drop_last().len() implies text.drop_last()[i]
            != '\n' by {
            assert(text.drop_last()[i] == text[i]);
        }
        lemma_line_breaks_none(text.drop_last());
    }
}

/// A line whose speaker and text hold no line break ends in the only one
/// it has.
pub proof fn lemma_line_is_one_line(speaker: Seq<char>, text: Seq<char>)
    requires
        !speaker.contains('\n'),
        !text.contains('\n'),
    ensures
        line_breaks(line(speaker, text)) == 1,
        line(speaker, text).last() == '\n',
{
    reveal_strlit(" ::: ");
    reveal_strlit("\n");
    let mark = " ::: "@;
    let end = "\n"@;
    assert(!mark.contains('\n'));
    lemma_line_breaks_none(speaker);
    lemma_line_breaks_none(mark);
    lemma_line_breaks_none(text);
    assert(end.drop_last() =~= Seq::<char>::empty());
    assert(line_breaks(end.drop_last()) == 0);
    assert(line_breaks(end) == 1);
    lemma_line_breaks_add(speaker, mark);
    lemma_line_breaks_add(speaker + mark, text);
    lemma_line_breaks_add(speaker + mark + text, end);
}

/// With N answers, none of them holding a line break, the answers make
/// exactly N lines.
pub proof fn lemma_answer_lines_count(messages: Seq<MessageView>)
    requires
        single_lined(messages),
    ensures
        line_breaks(answer_lines(messages)) == messages.len(),
    decreases messages.len(),
{
    if messages.len() > 0 {
        let front = messages.drop_last();
        let last = messages.last();
        assert forall|i: int| 0 <= i < front.len() implies !(#[trigger] front[i]).role.contains(
            '\n',
        ) && !front[i].content.contains('\n') by {
            assert(front[i] == messages[i]);
        }
        lemma_answer_lines_count(front);
        assert(last == messages[messages.len() - 1]);
        lemma_line_is_one_line(last.role, last.content);
        lemma_line_breaks_add(answer_lines(front), line(last.role, last.content));
    }
}

/// An exchange with N answers adds exactly N + 1 lines to the transcript,
/// the user's first, where neither the prompt nor an answer holds a line
/// break of its own.
pub proof fn lemma_transcript_line_count(prompt: Seq<char>, messages: Seq<MessageView>)
    requires
        !prompt.contains('\n'),
        single_lined(messages),
    ensures
        line_breaks(transcript(prompt, messages)) == messages.len() + 1,
        transcript(prompt, messages).take(line("user"@, prompt).len() as int) == line(
            "user"@,
            prompt,
        ),
{
    reveal_strlit("user");
    assert(!"user"@.contains('\n'));
    lemma_line_is_one_line("user"@, prompt);
    lemma_answer_lines_count(messages);
    lemma_line_breaks_add(line("user"@, prompt), answer_lines(messages));
    assert(transcript(prompt, messages).take(line("user"@, prompt).len() as int) =~= line(
        "user"@,
        prompt,
    ));
}

} // verus!
