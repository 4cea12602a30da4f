//! The fixed prompts: an instruction for the model, then the user's text
//! between fences.

use vstd::prelude::*;
use vstd::string::*;
use crate::text::{join, occurs_at, occurs_in};

verus! {

/// A task that depends on the text alone.
#[derive(Debug, Clone, Copy, PartialEq, Eq, Structural)]
pub enum TextTask {
    /// Condense the text.
    Summarize,
    /// Rewrite the text more clearly, at about its length.
    ImproveWriting,
    /// Turn the text into a few bullet points.
    BulletPoints,
}

/// The tone that a rewrite can be asked to take.
#[derive(Debug, Clone, Copy, PartialEq, Eq, Structural)]
pub enum Tone {
    Professional,
    Casual,
    StraightForward,
    Confident,
    Friendly,
    Strict,
}

/// The line that opens and closes the block around the user's text, with
/// the indentation that follows it.
pub open spec fn fence() -> Seq<char> {
    "\n    ```\n    "@
}

/// `text` between two fences.
pub open spec fn fenced(text: Seq<char>) -> Seq<char> {
    fence() + text + fence()
}

/// The instruction to rewrite in the tone called `tone_name`.
pub open spec fn change_tone_instruction(tone_name: Seq<char>) -> Seq<char> {
    "Re write the text below, to make it more "@ + tone_name
        + " while keeping the general idea of the text and it's length, only include the rewritten text in your response:"@
}

/// The prompt that asks for `text` to be rewritten in `tone`.
pub open spec fn change_tone_prompt_text(text: Seq<char>, tone: Tone) -> Seq<char> {
    change_tone_instruction(tone.name()) + fenced(text)
}

impl TextTask {
    /// The instruction that the task puts before the text.
    pub open spec fn instruction(&self) -> Seq<char> {
        match self {
            TextTask::Summarize =>
                "Summarize the text below, keep it as succint as possible while keeping the general idea of the text, only include the summarization in your response:"@,
            TextTask::ImproveWriting =>
                "Re write the text below, to make to improve the overall writting and clarity while keeping the general idea of the text and it's length, only include the rewritten text in your response:"@,
            TextTask::BulletPoints =>
                "Re write the text below, in a few bullet points summarizing the important points, only include the rewritten text in your response:"@,
        }
    }

    /// The task's prompt for `text`: the instruction, then `text` between
    /// fences, character for character.
    pub open spec fn prompt_text(&self, text: Seq<char>) -> Seq<char> {
        self.instruction() + fenced(text)
    }

    /// The prompt that asks the model to carry the task out on `text`.
    pub fn prompt(&self, text: String) -> (prompt: String)
        ensures
            prompt@ == self.prompt_text(text@),
    {
        match self {
            TextTask::Summarize => summarize_prompt(text),
            TextTask::ImproveWriting => improve_writing_prompt(text),
            TextTask::BulletPoints => bullet_points_prompt(text),
        }
    }
}

impl Tone {
    /// The tone's name as the prompt spells it.
    pub open spec fn name(&self) -> Seq<char> {
        match self {
            Tone::Professional => "professional"@,
            Tone::Casual => "casual"@,
            Tone::StraightForward => "straight forward"@,
            Tone::Confident => "confident"@,
            Tone::Friendly => "friendly"@,
            Tone::Strict => "strict"@,
        }
    }

    /// The tone's name as the prompt spells it.
    pub fn as_str(&self) -> (name: &'static str)
        ensures
            name@ == self.name(),
    {
        match self {
            Tone::Professional => "professional",
            Tone::Casual => "casual",
            Tone::StraightForward => "straight forward",
            Tone::Confident => "confident",
            Tone::Friendly => "friendly",
            Tone::Strict => "strict",
        }
    }
}

/// `instruction`, then `text` between fences.
fn fenced_prompt(instruction: String, text: &str) -> (prompt: String)
    ensures
        prompt@ == instruction@ + fenced(text@),
{
    let mut prompt = instruction;
    prompt.append("\n    ```\n    ");
    prompt.append(text);
    prompt.append("\n    ```\n    ");
    assert(prompt@ =~= instruction@ + fenced(text@));
    prompt
}

/// The prompt that asks for a summary of `text`.
pub fn summarize_prompt(text: String) -> (prompt: String)
    ensures
        prompt@ == TextTask::Summarize.prompt_text(text@),
{
    fenced_prompt(
        String::from_str(
            "Summarize the text below, keep it as succint as possible while keeping the general idea of the text, only include the summarization in your response:",
        ),
        text.as_str(),
    )
}

/// The prompt that asks for `text` to be written better.
pub fn improve_writing_prompt(text: String) -> (prompt: String)
    ensures
        prompt@ == TextTask::ImproveWriting.prompt_text(text@),
{
    fenced_prompt(
        String::from_str(
            "Re write the text below, to make to improve the overall writting and clarity while keeping the general idea of the text and it's length, only include the rewritten text in your response:",
        ),
        text.as_str(),
    )
}

/// The prompt that asks for `text` as bullet points.
pub fn bullet_points_prompt(text: String) -> (prompt: String)
    ensures
        prompt@ == TextTask::BulletPoints.prompt_text(text@),
{
    fenced_prompt(
        String::from_str(
            "Re write the text below, in a few bullet points summarizing the important points, only include the rewritten text in your response:",
        ),
        text.as_str(),
    )
}

/// The prompt that asks for `text` to be rewritten in `tone`.
pub fn change_tone_prompt(text: String, tone: Tone) -> (prompt: String)
    ensures
        prompt@ == change_tone_prompt_text(text@, tone),
{
    let mut instruction = join("Re write the text below, to make it more ", tone.as_str());
    instruction.append(
        " while keeping the general idea of the text and it's length, only include the rewritten text in your response:",
    );
    fenced_prompt(instruction, text.as_str())
}

/// Whether `instruction` begins with `initial`, holds it nowhere else, and
/// holds no line break.
spec fn led_by(instruction: Seq<char>, initial: char) -> bool {
    &&& instruction.len() > 0
    &&& instruction[0] == initial
    &&& forall|j: int| 0 < j < instruction.len() ==> instruction[j] != initial
    &&& forall|j: int| 0 <= j < instruction.len() ==> instruction[j] != '\n'
}

/// An instruction that begins with a capital letter, holds it nowhere else
/// and holds no line break stands in its prompt once, at the start, unless
/// the text itself holds a copy of it.
proof fn lemma_leading_instruction_is_alone(
    instruction: Seq<char>,
    text: Seq<char>,
    initial: char,
)
    requires
        led_by(instruction, initial),
        initial == 'R' || initial == 'S',
        !occurs_in(text, instruction),
    ensures
        forall|at: int| #[trigger]
            occurs_at(instruction + fenced(text), instruction, at) <==> at == 0,
{
    reveal_strlit("\n    ```\n    ");
    let prompt = instruction + fenced(text);
    let start = (instruction.len() + fence().len()) as int;
    assert(prompt.subrange(0, instruction.len() as int) =~= instruction);
    assert forall|at: int| #[trigger] occurs_at(prompt, instruction, at) implies at == 0 by {
        let copy = prompt.subrange(at, at + instruction.len());
        assert(copy[0] == initial);
        if at != 0 {
            assert(start <= at < start + text.len());
            if at + instruction.len() <= start + text.len() {
                assert(text.subrange(at - start, at - start + instruction.len()) =~= copy);
                assert(occurs_at(text, instruction, at - start));
            } else {
                let j = start + text.len() - at;
                assert(copy[j] == '\n');
            }
        }
    }
}

/// A task's prompt holds the text unchanged: the instruction, a fence, the
/// text from its first character to its last, and a fence.
pub proof fn lemma_prompt_holds_text(task: TextTask, text: Seq<char>)
    ensures
        occurs_at(
            task.prompt_text(text),
            text,
            (task.instruction().len() + fence().len()) as int,
        ),
        task.prompt_text(text).len() == task.instruction().len() + text.len() + 2 * fence().len(),
{
    let prompt = task.prompt_text(text);
    let start = (task.instruction().len() + fence().len()) as int;
    assert(prompt.subrange(start, start + text.len()) =~= text);
}

/// A prompt to change the tone holds the text unchanged, between the
/// fences that follow the instruction.
pub proof fn lemma_change_tone_prompt_holds_text(text: Seq<char>, tone: Tone)
    ensures
        occurs_at(
            change_tone_prompt_text(text, tone),
            text,
            (change_tone_instruction(tone.name()).len() + fence().len()) as int,
        ),
        change_tone_prompt_text(text, tone).len() == change_tone_instruction(tone.name()).len()
            + text.len() + 2 * fence().len(),
{
    let prompt = change_tone_prompt_text(text, tone);
    let start = (change_tone_instruction(tone.name()).len() + fence().len()) as int;
    assert(prompt.subrange(start, start + text.len()) =~= text);
}

/// A task's prompt holds the task's instruction once, at its start, for
/// every text that does not itself hold the instruction.
pub proof fn lemma_prompt_holds_one_instruction(task: TextTask, text: Seq<char>)
    requires
        !occurs_in(text, task.instruction()),
    ensures
        forall|at: int| #[trigger]
            occurs_at(task.prompt_text(text), task.instruction(), at) <==> at == 0,
{
    reveal_strlit(
        "Summarize the text below, keep it as succint as possible while keeping the general idea of the text, only include the summarization in your response:",
    );
    reveal_strlit(
        "Re write the text below, to make to improve the overall writting and clarity while keeping the general idea of the text and it's length, only include the rewritten text in your response:",
    );
    reveal_strlit(
        "Re write the text below, in a few bullet points summarizing the important points, only include the rewritten text in your response:",
    );
    match task {
        TextTask::Summarize => {
            assert(led_by(task.instruction(), 'S'));
            lemma_leading_instruction_is_alone(task.instruction(), text, 'S');
        },
        TextTask::ImproveWriting => {
            assert(led_by(task.instruction(), 'R'));
            lemma_leading_instruction_is_alone(task.instruction(), text, 'R');
        },
        TextTask::BulletPoints => {
            assert(led_by(task.instruction(), 'R'));
            lemma_leading_instruction_is_alone(task.instruction(), text, 'R');
        },
    }
}

/// A prompt to change the tone holds its instruction, the tone's name
/// included, once, at its start, for every text that does not itself hold
/// that instruction.
pub proof fn lemma_change_tone_prompt_holds_one_instruction(text: Seq<char>, tone: Tone)
    requires
        !occurs_in(text, change_tone_instruction(tone.name())),
    ensures
        forall|at: int| #[trigger]
            occurs_at(
                change_tone_prompt_text(text, tone),
                change_tone_instruction(tone.name()),
                at,
            ) <==> at == 0,
{
    reveal_strlit("Re write the text below, to make it more ");
    reveal_strlit(
        " while keeping the general idea of the text and it's length, only include the rewritten text in your response:",
    );
    reveal_strlit("professional");
    reveal_strlit("casual");
    reveal_strlit("straight forward");
    reveal_strlit("confident");
    reveal_strlit("friendly");
    reveal_strlit("strict");
    assert(led_by(change_tone_instruction(tone.name()), 'R'));
    lemma_leading_instruction_is_alone(change_tone_instruction(tone.name()), text, 'R');
}

} // verus!
