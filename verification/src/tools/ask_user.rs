//! AskUserQuestion: a question for the user. This module words the question
//! from the call's arguments and words the answer; showing it and reading
//! the reply from the terminal is left to the caller.

use vstd::prelude::*;
use crate::text::{blen, decimal, decimal_string, join, owned, push_joined, push_str, trim, trim_str, views};
use crate::tool_output::{out_view, BodyV, OutV, ToolOutput};

verus! {

pub struct AskUserTool;

/// One option of a question: its label and description, when given as text.
pub struct QuestionOption {
    pub label: Option<String>,
    pub description: Option<String>,
}

/// One question of the call: its text and its options, when given.
pub struct Question {
    pub question: Option<String>,
    pub options: Option<Vec<QuestionOption>>,
}

/// `\n  <n>. <label> — <description>`.
pub open spec fn option_line(o: QuestionOption, n: nat) -> Seq<char> {
    "\n  "@ + decimal(n) + ". "@ + match o.label {
        Some(l) => l@,
        None => "?"@,
    } + " — "@ + match o.description {
        Some(d) => d@,
        None => seq![],
    }
}

/// The lines of the options, numbered from `start + 1`.
pub open spec fn options_text(opts: Seq<QuestionOption>, start: nat) -> Seq<char>
    decreases opts.len(),
{
    if opts.len() == 0 {
        seq![]
    } else {
        options_text(opts.drop_last(), start) + option_line(opts.last(), start + opts.len())
    }
}

/// A question with its numbered options.
pub open spec fn question_part(q: Question) -> Seq<char> {
    (match q.question {
        Some(t) => t@,
        None => "(no question)"@,
    }) + match q.options {
        Some(os) => options_text(os@, 0),
        None => seq![],
    }
}

/// What to ask: the questions, separated by blank lines, or the single
/// `question`; an error when the call gives neither.
pub open spec fn question_text(questions: Option<Seq<Question>>, question: Option<Seq<char>>) -> Option<Seq<char>> {
    match questions {
        Some(qs) => Some(join(qs.map_values(|q: Question| question_part(q)), "\n\n"@)),
        None => match question {
            Some(q) => Some(q),
            None => None,
        },
    }
}

fn push_option(part: &mut String, o: &QuestionOption, n: usize)
    ensures
        final(part)@ == old(part)@ + option_line(*o, n as nat),
{
    push_str(part, "\n  ");
    let d = decimal_string(n as u64);
    push_str(part, d.as_str());
    push_str(part, ". ");
    match &o.label {
        Some(l) => push_str(part, l.as_str()),
        None => push_str(part, "?"),
    }
    push_str(part, " — ");
    match &o.description {
        Some(d) => push_str(part, d.as_str()),
        None => {
            assert(part@ + Seq::<char>::empty() =~= part@);
        },
    }
}

fn part_of(q: &Question) -> (out: String)
    ensures
        out@ == question_part(*q),
{
    let mut part = match &q.question {
        Some(t) => t.clone(),
        None => owned("(no question)"),
    };
    match &q.options {
        Some(os) => {
            let ghost start = part@;
            let mut i: usize = 0;
            assert(os@.take(0) =~= Seq::<QuestionOption>::empty());
            assert(start + Seq::<char>::empty() =~= start);
            while i < os.len()
                invariant
                    i <= os@.len(),
                    part@ == start + options_text(os@.take(i as int), 0),
                decreases os@.len() - i,
            {
                let ghost before = part@;
                proof {
                    let t = os@.take(i + 1);
                    assert(t.drop_last() =~= os@.take(i as int));
                    assert(t.last() == os@[i as int]);
                    assert(options_text(t, 0) == options_text(os@.take(i as int), 0) + option_line(
                        os@[i as int],
                        (i + 1) as nat,
                    ));
                }
                push_option(&mut part, &os[i], i + 1);
                assert(part@ =~= start + options_text(os@.take(i + 1), 0));
                i += 1;
            }
            assert(os@.take(os@.len() as int) =~= os@);
        },
        None => {
            assert(part@ + Seq::<char>::empty() =~= part@);
        },
    }
    part
}

impl AskUserTool {
    /// What to ask; `Err` with `Missing 'questions' parameter` when the call
    /// gives neither `questions` nor `question`.
    pub fn question(questions: &Option<Vec<Question>>, question: Option<&str>) -> (r: Result<String, String>)
        ensures
            match question_text(
                match questions {
                    Some(qs) => Some(qs@),
                    None => None,
                },
                match question {
                    Some(q) => Some(q@),
                    None => None,
                },
            ) {
                Some(t) => r matches Ok(s) && s@ == t,
                None => r matches Err(m) && m@ == "Missing 'questions' parameter"@,
            },
    {
        match questions {
            Some(qs) => {
                let mut parts: Vec<String> = Vec::new();
                let mut i: usize = 0;
                while i < qs.len()
                    invariant
                        i <= qs@.len(),
                        views(parts@) == qs@.take(i as int).map_values(|q: Question| question_part(q)),
                    decreases qs@.len() - i,
                {
                    let ghost before = views(parts@);
                    let p = part_of(&qs[i]);
                    parts.push(p);
                    assert(views(parts@) =~= before.push(p@));
                    assert(qs@.take(i + 1).map_values(|q: Question| question_part(q)) =~= qs@.take(
                        i as int,
                    ).map_values(|q: Question| question_part(q)).push(question_part(qs@[i as int])));
                    assert(views(parts@) =~= qs@.take(i + 1).map_values(|q: Question| question_part(q)));
                    i += 1;
                }
                assert(qs@.take(qs@.len() as int) =~= qs@);
                let mut out = String::new();
                push_joined(&mut out, &parts, "\n\n");
                Ok(out)
            },
            None => match question {
                Some(q) => Ok(owned(q)),
                None => Err(owned("Missing 'questions' parameter")),
            },
        }
    }

    /// The answer when the question can only be shown: the model is told to
    /// stop and wait for the user's next message.
    pub fn surfaced(question: &str) -> (o: ToolOutput)
        ensures
            out_view(o) == (OutV {
                is_error: false,
                summary: Some("Question surfaced to user"@),
                body: BodyV::Text(
                    "QUESTION FOR USER: "@ + question@
                        + "\n\n(The question has been displayed. Stop here and wait for the user to respond in their next message.)"@,
                ),
                truncation: None,
                steps: seq!["Wait for the user's next message before taking further actions"@],
            }),
    {
        let mut text = owned("QUESTION FOR USER: ");
        push_str(&mut text, question);
        push_str(
            &mut text,
            "\n\n(The question has been displayed. Stop here and wait for the user to respond in their next message.)",
        );
        let o = ToolOutput::success().with_summary("Question surfaced to user").with_text(text.as_str())
            .with_next_step("Wait for the user's next message before taking further actions");
        assert(views(o.next_steps@) =~= seq![
            "Wait for the user's next message before taking further actions"@,
        ]);
        o
    }

    /// The answer once the user replied with the line `reply`.
    pub fn answered(reply: &str) -> (o: ToolOutput)
        ensures
            trim(reply@).len() == 0 ==> out_view(o) == (OutV {
                is_error: false,
                summary: None,
                body: BodyV::Empty("(no response from user)"@),
                truncation: None,
                steps: seq![],
            }),
            trim(reply@).len() > 0 ==> out_view(o) == (OutV {
                is_error: false,
                summary: Some("User replied with "@ + decimal(blen(trim(reply@))) + " chars"@),
                body: BodyV::Text(trim(reply@)),
                truncation: None,
                steps: seq![],
            }),
    {
        let r = trim_str(reply);
        if r.as_str().is_empty() {
            let o = ToolOutput::empty("(no response from user)");
            assert(views(o.next_steps@) =~= Seq::<Seq<char>>::empty());
            o
        } else {
            let mut summary = owned("User replied with ");
            let n = decimal_string(r.as_str().len() as u64);
            push_str(&mut summary, n.as_str());
            push_str(&mut summary, " chars");
            let o = ToolOutput::success().with_summary(summary.as_str()).with_text(r.as_str());
            assert(views(o.next_steps@) =~= Seq::<Seq<char>>::empty());
            o
        }
    }
}

} // verus!
