//! Commit-message generation with a deterministic fallback.
//!
//! The generator builds a prompt from a configured template and a diff,
//! and resolves what an external text-generation process produced into a
//! usable commit message: the configured default message whenever the
//! process failed or returned only white space, and otherwise the
//! process output, prefixed by the default message when its first line
//! does not look like a conventional commit title.
//!
//! Running the external process itself is the caller's business; this
//! module only decides what to hand it and what to make of its output.

use vstd::prelude::*;
use vstd::string::StrSliceExecFns;
use vstd::string::StringExecFns;

use crate::text::conventional_header_spec;
use crate::text::first_line;
use crate::text::first_line_spec;
use crate::text::is_conventional_header;
use crate::text::replace_all;
use crate::text::replace_spec;
use crate::text::trim;
use crate::text::trim_spec;

verus! {

/// The immutable configuration of the generator: the prompt template,
/// the external command with its leading arguments, and the default
/// commit message used when generation fails.
pub struct GeneratorConfig {
    pub prompt_template: String,
    pub command: String,
    pub args: Vec<String>,
    pub default_commit_message: String,
}

/// What the external text-generation process produced: whether it
/// exited successfully, and its standard output decoded as text.
pub struct GeneratorOutput {
    pub success: bool,
    pub stdout: String,
}

/// Generates commit messages from diff content via an external
/// text-generation process, falling back to a configured default.
pub struct CommitMessageGenerator {
    config: GeneratorConfig,
    language: String,
}

/// The prompt for a diff: the template with `{language}` and
/// `{diff_content}` substituted, in that order.
pub open spec fn prompt_spec(template: Seq<char>, language: Seq<char>, diff: Seq<char>) -> Seq<
    char,
> {
    replace_spec(replace_spec(template, "{language}"@, language), "{diff_content}"@, diff)
}

/// The candidate message taken from a process run: its trimmed standard
/// output, provided the process succeeded and the output is not only
/// white space.
pub open spec fn candidate_spec(output: Option<GeneratorOutput>) -> Option<Seq<char>> {
    match output {
        Some(o) => if o.success && trim_spec(o.stdout@).len() > 0 {
            Some(trim_spec(o.stdout@))
        } else {
            None
        },
        None => None,
    }
}

/// The message a candidate resolves to: the default when there is no
/// candidate; the candidate itself when its trimmed first line is a
/// conventional commit title; otherwise the default, a blank line, and
/// the candidate.
pub open spec fn resolve_spec(default: Seq<char>, candidate: Option<Seq<char>>) -> Seq<char> {
    match candidate {
        None => default,
        Some(m) => if conventional_header_spec(trim_spec(first_line_spec(m))) {
            m
        } else {
            default + "\n\n"@ + m
        },
    }
}

impl CommitMessageGenerator {
    /// The configured prompt template.
    pub closed spec fn template(&self) -> Seq<char> {
        self.config.prompt_template@
    }

    /// The language the prompt asks for.
    pub closed spec fn language(&self) -> Seq<char> {
        self.language@
    }

    /// The configured default commit message.
    pub closed spec fn default_message(&self) -> Seq<char> {
        self.config.default_commit_message@
    }

    /// The configured external command.
    pub closed spec fn command_spec(&self) -> Seq<char> {
        self.config.command@
    }

    /// Creates a generator for the given configuration and language.
    pub fn new(config: GeneratorConfig, language: &str) -> (r: Self)
        ensures
            r.template() == config.prompt_template@,
            r.language() == language@,
            r.default_message() == config.default_commit_message@,
            r.command_spec() == config.command@,
            r.args_spec() == config.args.deep_view(),
    {
        CommitMessageGenerator { config, language: language.to_owned() }
    }

    /// The arguments the external command is always given, before the
    /// prompt.
    pub closed spec fn args_spec(&self) -> Seq<Seq<char>> {
        self.config.args.deep_view()
    }

    /// The configured external command, for the caller that runs it.
    pub fn command(&self) -> (r: &str)
        ensures
            r@ == self.command_spec(),
    {
        self.config.command.as_str()
    }

    /// The configured leading arguments, for the caller that runs the
    /// external command.
    pub fn args(&self) -> (r: &Vec<String>)
        ensures
            r.deep_view() == self.args_spec(),
    {
        &self.config.args
    }

    /// Builds the prompt for `diff_content` by substituting the
    /// `{language}` and `{diff_content}` placeholders in the template.
    pub fn build_prompt(&self, diff_content: &str) -> (r: String)
        ensures
            r@ == prompt_spec(self.template(), self.language(), diff_content@),
    {
        proof {
            reveal_strlit("{language}");
            reveal_strlit("{diff_content}");
        }
        let step = replace_all(self.config.prompt_template.as_str(), "{language}", self.language.as_str());
        replace_all(step.as_str(), "{diff_content}", diff_content)
    }

    /// Resolves what the external process produced into the commit
    /// message to use. `None` stands for a process that could not be
    /// run at all.
    pub fn generate(&self, output: Option<GeneratorOutput>) -> (r: String)
        ensures
            r@ == resolve_spec(self.default_message(), candidate_spec(output)),
    {
        match output {
            None => self.config.default_commit_message.clone(),
            Some(o) => {
                if !o.success {
                    return self.config.default_commit_message.clone();
                }
                let message = trim(o.stdout.as_str());
                if message.unicode_len() == 0 {
                    return self.config.default_commit_message.clone();
                }
                let head = trim(first_line(message));
                if is_conventional_header(head) {
                    message.to_owned()
                } else {
                    self.config.default_commit_message.clone().concat("\n\n").concat(message)
                }
            },
        }
    }
}

/// The default message is used verbatim whenever the external process
/// failed, could not be run, or produced only white space.
pub proof fn lemma_failed_generation_uses_default(default: Seq<char>, output: Option<
    GeneratorOutput,
>)
    requires
        match output {
            None => true,
            Some(o) => !o.success || trim_spec(o.stdout@).len() == 0,
        },
    ensures
        resolve_spec(default, candidate_spec(output)) == default,
{
}

/// A successful run resolves to its trimmed output alone when that
/// output's trimmed first line is a conventional commit title, and to
/// the default message, a blank line, and the output otherwise.
pub proof fn lemma_successful_generation_format(default: Seq<char>, output: GeneratorOutput)
    requires
        output.success,
        trim_spec(output.stdout@).len() > 0,
    ensures
        ({
            let m = trim_spec(output.stdout@);
            resolve_spec(default, candidate_spec(Some(output))) == if conventional_header_spec(
                trim_spec(first_line_spec(m)),
            ) {
                m
            } else {
                default + "\n\n"@ + m
            }
        }),
{
}

} // verus!
