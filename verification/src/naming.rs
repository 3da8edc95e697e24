use crate::operation::Operation;
use vstd::prelude::*;
use vstd::string::*;

verus! {

/// A text with every space replaced by an underscore.
pub open spec fn underscored(text: Seq<char>) -> Seq<char> {
    text.map_values(|c: char| if c == ' ' { '_' } else { c })
}

/// The file name for what a prompt produced: the prompt with underscores
/// for spaces, then the extension.
pub open spec fn out_name(prompt: Seq<char>, ext: Seq<char>) -> Seq<char> {
    underscored(prompt) + ext
}

/// The place just past the last occurrence of a sign in a text, or 0
/// where the text does not hold the sign.
pub open spec fn after_last(text: Seq<char>, sign: char) -> int
    decreases text.len(),
{
    if text.len() == 0 {
        0
    } else if text.last() == sign {
        text.len() as int
    } else {
        after_last(text.drop_last(), sign)
    }
}

/// What follows the last slash of a path, or all of it where it has none.
pub open spec fn file_name(path: Seq<char>) -> Seq<char> {
    path.skip(after_last(path, '/'))
}

/// A file name up to its last dot, or all of it where it has none.
pub open spec fn cut_extension(name: Seq<char>) -> Seq<char> {
    if after_last(name, '.') > 0 {
        name.take(after_last(name, '.') - 1)
    } else {
        name
    }
}

/// The stem of a path: its file name without the last extension.
pub open spec fn stem(path: Seq<char>) -> Seq<char> {
    cut_extension(file_name(path))
}

/// The file name for the transcript of an audio file: the stem of its
/// path, then `.txt`.
pub open spec fn text_name(path: Seq<char>) -> Seq<char> {
    stem(path) + ".txt"@
}

/// Where the last occurrence of a sign ends: within the text, right
/// behind an occurrence if there is any, and with none behind it.
pub proof fn lemma_after_last(text: Seq<char>, sign: char)
    ensures
        0 <= after_last(text, sign) <= text.len(),
        after_last(text, sign) > 0 <==> text.contains(sign),
        after_last(text, sign) > 0 ==> text[after_last(text, sign) - 1] == sign,
        forall|i: int| after_last(text, sign) <= i < text.len() ==> text[i] != sign,
    decreases text.len(),
{
    if text.len() > 0 {
        let front = text.drop_last();
        lemma_after_last(front, sign);
        if text.last() == sign {
            assert(text[text.len() - 1] == sign);
        } else {
            assert forall|i: int| after_last(text, sign) <= i < text.len() implies text[i]
                != sign by {
                if i < front.len() {
                    assert(front[i] == text[i]);
                }
            }
            if after_last(front, sign) > 0 {
                assert(text[after_last(front, sign) - 1] == front[after_last(front, sign) - 1]);
            }
            if text.contains(sign) {
                let i = choose|i: int| 0 <= i < text.len() && text[i] == sign;
                assert(front[i] == sign);
            }
        }
    }
}

/// One more sign at the end of a text, as seen by [`after_last`].
proof fn lemma_after_last_push(text: Seq<char>, c: char, sign: char)
    ensures
        after_last(text.push(c), sign) == if c == sign {
            text.len() as int + 1
        } else {
            after_last(text, sign)
        },
{
    assert(text.push(c).drop_last() =~= text);
}

/// A tail that does not hold the sign leaves the place of its last
/// occurrence where it was.
proof fn lemma_after_last_append(text: Seq<char>, tail: Seq<char>, sign: char)
    requires
        !tail.contains(sign),
    ensures
        after_last(text + tail, sign) == after_last(text, sign),
    decreases tail.len(),
{
    if tail.len() == 0 {
        assert(text + tail =~= text);
    } else {
        let front = tail.drop_last();
        assert(tail[tail.len() - 1] != sign);
        assert forall|i: int| 0 <= i < front.len() implies front[i] != sign by {
            assert(front[i] == tail[i]);
        }
        assert((text + tail).drop_last() =~= text + front);
        lemma_after_last_append(text, front, sign);
    }
}

/// One more sign of a path, as seen by [`file_name`] and by the place of
/// the last dot in it.
proof fn lemma_file_name_step(path: Seq<char>, n: int)
    requires
        0 <= n < path.len(),
    ensures
        path[n] == '/' ==> file_name(path.take(n + 1)) == Seq::<char>::empty(),
        path[n] != '/' ==> file_name(path.take(n + 1)) == file_name(path.take(n)).push(path[n]),
        path[n] == '.' ==> after_last(file_name(path.take(n + 1)), '.') == file_name(
            path.take(n),
        ).len() + 1,
        path[n] != '/' && path[n] != '.' ==> after_last(file_name(path.take(n + 1)), '.')
            == after_last(file_name(path.take(n)), '.'),
        path[n] == '/' ==> after_last(file_name(path.take(n + 1)), '.') == 0,
{
    let before = path.take(n);
    let now = path.take(n + 1);
    assert(now =~= before.push(path[n]));
    lemma_after_last_push(before, path[n], '/');
    lemma_after_last(before, '/');
    if path[n] == '/' {
        assert(file_name(now) =~= Seq::<char>::empty());
    } else {
        assert(file_name(now) =~= file_name(before).push(path[n]));
        lemma_after_last_push(file_name(before), path[n], '.');
    }
}

impl Operation {
    /// Names the file for what `prompt` produced.
    pub fn format_out_name(prompt: &str, ext: &str) -> (name: String)
        ensures
            name@ == out_name(prompt@, ext@),
    {
        let mut name = String::new();
        let chars = prompt.chars();
        for c in it: chars
            invariant
                it.seq() == prompt@,
                name@ == underscored(prompt@.take(it.index())),
        {
            assert(prompt@.take(it.index() + 1) =~= prompt@.take(it.index()).push(c));
            name.push(if c == ' ' { '_' } else { c });
        }
        assert(prompt@.take(prompt@.len() as int) =~= prompt@);
        name.append(ext);
        name
    }

    /// Names the file for the transcript of the audio file at `filepath`.
    pub fn text_out_name(filepath: &str) -> (name: String)
        ensures
            name@ == text_name(filepath@),
    {
        let mut head = String::new();
        let mut tail = String::new();
        let mut dotted = false;
        let chars = filepath.chars();
        for c in it: chars
            invariant
                it.seq() == filepath@,
                dotted == (after_last(file_name(filepath@.take(it.index())), '.') > 0),
                dotted ==> head@ == cut_extension(file_name(filepath@.take(it.index()))),
                tail@ == file_name(filepath@.take(it.index())).skip(
                    after_last(file_name(filepath@.take(it.index())), '.'),
                ),
        {
            let ghost name = file_name(filepath@.take(it.index()));
            let ghost grown = file_name(filepath@.take(it.index() + 1));
            proof {
                lemma_file_name_step(filepath@, it.index());
                lemma_after_last(name, '.');
            }
            if c == '/' {
                head = String::new();
                tail = String::new();
                dotted = false;
                assert(tail@ =~= grown.skip(0));
            } else if c == '.' {
                if dotted {
                    head.push('.');
                    head.append(tail.as_str());
                } else {
                    head = tail;
                }
                tail = String::new();
                dotted = true;
                assert(head@ =~= name);
                assert(cut_extension(grown) =~= name);
                assert(tail@ =~= grown.skip(name.len() as int + 1));
            } else {
                tail.push(c);
                assert(tail@ =~= grown.skip(after_last(name, '.')));
                if dotted {
                    assert(cut_extension(grown) =~= cut_extension(name));
                }
            }
        }
        proof {
            assert(filepath@.take(filepath@.len() as int) =~= filepath@);
            lemma_after_last(file_name(filepath@), '.');
        }
        let mut name = if dotted {
            head
        } else {
            assert(tail@ =~= file_name(filepath@));
            tail
        };
        name.append(".txt");
        name
    }
}

/// The transcript of the audio file `stem.ext` in any directory goes to
/// `stem.txt`: the directory and the last extension are left out, and a
/// dot within the stem stays.
pub proof fn lemma_text_name_of_parts(dir: Seq<char>, stem_part: Seq<char>, ext: Seq<char>)
    requires
        dir.len() == 0 || dir.last() == '/',
        !stem_part.contains('/'),
        !ext.contains('/'),
        !ext.contains('.'),
    ensures
        stem(dir + stem_part + seq!['.'] + ext) == stem_part,
        text_name(dir + stem_part + seq!['.'] + ext) == stem_part + ".txt"@,
{
    let dot = seq!['.'];
    let name = stem_part + dot + ext;
    let path = dir + stem_part + dot + ext;
    assert(path =~= dir + name);
    assert forall|i: int| 0 <= i < name.len() implies name[i] != '/' by {
        if i < stem_part.len() {
            assert(stem_part.contains(stem_part[i]));
        } else if i > stem_part.len() {
            assert(ext.contains(ext[i - stem_part.len() - 1]));
        }
    }
    lemma_after_last_append(dir, name, '/');
    assert(after_last(dir, '/') == dir.len());
    assert(file_name(path) =~= name);
    lemma_after_last_append(stem_part + dot, ext, '.');
    assert((stem_part + dot).last() == '.');
    assert(after_last(stem_part + dot, '.') == stem_part.len() + 1);
    assert(cut_extension(name) =~= stem_part);
}

/// The transcript of an audio file whose name has no dot goes to that
/// name followed by `.txt`.
pub proof fn lemma_text_name_without_dot(dir: Seq<char>, name: Seq<char>)
    requires
        dir.len() == 0 || dir.last() == '/',
        !name.contains('/'),
        !name.contains('.'),
    ensures
        stem(dir + name) == name,
        text_name(dir + name) == name + ".txt"@,
{
    lemma_after_last_append(dir, name, '/');
    assert(after_last(dir, '/') == dir.len());
    assert(file_name(dir + name) =~= name);
    lemma_after_last(name, '.');
}

/// The out name is as long as prompt and extension together; it holds the
/// prompt with an underscore wherever the prompt has a space, and then
/// the extension, once.
pub proof fn lemma_out_name_shape(prompt: Seq<char>, ext: Seq<char>)
    ensures
        out_name(prompt, ext).len() == prompt.len() + ext.len(),
        forall|i: int|
            0 <= i < prompt.len() ==> #[trigger] out_name(prompt, ext)[i] == if prompt[i] == ' ' {
                '_'
            } else {
                prompt[i]
            },
        forall|i: int| 0 <= i < prompt.len() ==> #[trigger] out_name(prompt, ext)[i] != ' ',
        out_name(prompt, ext).skip(prompt.len() as int) == ext,
{
    assert(out_name(prompt, ext).skip(prompt.len() as int) =~= ext);
}

/// On a prompt without spaces the out name is the prompt followed by the
/// extension.
pub proof fn lemma_out_name_without_spaces(prompt: Seq<char>, ext: Seq<char>)
    requires
        !prompt.contains(' '),
    ensures
        underscored(prompt) == prompt,
        out_name(prompt, ext) == prompt + ext,
{
    assert forall|i: int| 0 <= i < prompt.len() implies underscored(prompt)[i] == prompt[i] by {
        assert(prompt.contains(prompt[i]));
    }
    assert(underscored(prompt) =~= prompt);
}

/// Replacing spaces a second time changes nothing.
pub proof fn lemma_underscored_idempotent(text: Seq<char>)
    ensures
        !underscored(text).contains(' '),
        underscored(underscored(text)) == underscored(text),
{
    assert(underscored(underscored(text)) =~= underscored(text));
}

} // verus!
