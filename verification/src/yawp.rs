//! Deciding what a run prints where: an error line on stderr for each
//! post that went wrong, and the message itself on stdout when every
//! post succeeded and output is not suppressed.

use vstd::prelude::*;
use vstd::pervasive::unreached;
use crate::error::{check_status, status_message_spec};
use crate::env_file::line_views;

verus! {

/// Which platforms to post to, and whether to echo the message.
pub struct Flags {
    pub mastodon: bool,
    pub twitter: bool,
    pub quiet: bool,
}

/// What came of one attempt to post: the HTTP status of the response,
/// or the text of a transport error that kept the request from
/// completing.
pub enum PostOutcome {
    Sent(u16),
    RequestFailed(String),
}

impl PostOutcome {
    /// An HTTP status code has three digits.
    pub open spec fn valid(&self) -> bool {
        match self {
            PostOutcome::Sent(code) => 100 <= *code <= 999,
            PostOutcome::RequestFailed(_) => true,
        }
    }
}

/// The error line that a post's outcome sends to stderr: none for a
/// `200` response; the platform's name and the status code's message
/// for any other response; the transport error's text when the
/// request never completed.
pub open spec fn error_line_spec(service: Seq<char>, outcome: PostOutcome) -> Option<Seq<char>> {
    match outcome {
        PostOutcome::Sent(code) => if code == 200 {
            None
        } else {
            Some(service + " Error: "@ + status_message_spec(code))
        },
        PostOutcome::RequestFailed(e) => Some("Request Error: "@ + e@),
    }
}

/// The error line for one post, named after the platform it went to.
pub fn error_line(service: &str, outcome: &PostOutcome) -> (r: Option<String>)
    requires
        outcome.valid(),
    ensures
        r is Some <==> error_line_spec(service@, *outcome) is Some,
        r matches Some(s) ==> error_line_spec(service@, *outcome) matches Some(v) && s@ == v,
{
    match outcome {
        PostOutcome::Sent(code) => {
            if *code == 200 {
                None
            } else {
                match check_status(*code) {
                    Err(e) => {
                        let mut line = String::from_str(service);
                        line.append(" Error: ");
                        line.append(e.message().as_str());
                        Some(line)
                    },
                    Ok(_) => unreached(),
                }
            }
        },
        PostOutcome::RequestFailed(e) => {
            let mut line = String::from_str("Request Error: ");
            line.append(e.as_str());
            Some(line)
        },
    }
}

/// The sequence a single optional line makes.
pub open spec fn opt_line(o: Option<Seq<char>>) -> Seq<Seq<char>> {
    match o {
        Some(s) => seq![s],
        None => Seq::empty(),
    }
}

/// The stderr lines of a whole run: Mastodon's error first (Mastodon
/// is attempted first), then Twitter's; none for a platform that was
/// not asked for or whose post succeeded.
pub open spec fn stderr_lines_spec(mastodon: Option<PostOutcome>, twitter: Option<PostOutcome>) -> Seq<Seq<char>> {
    (match mastodon {
        Some(o) => opt_line(error_line_spec("Mastodon"@, o)),
        None => Seq::empty(),
    }) + (match twitter {
        Some(o) => opt_line(error_line_spec("Twitter"@, o)),
        None => Seq::empty(),
    })
}

/// What a run prints: the lines for stderr, in order, and the line
/// for stdout, if any.
pub struct YawpOutput {
    pub stderr_lines: Vec<String>,
    pub stdout_line: Option<String>,
}

/// Decide what a run prints. A platform's outcome is given exactly
/// when its flag asked for the post. The message goes to stdout only
/// when nothing went wrong and `quiet` is off.
pub fn process_yawp(yawp: &String, flags: &Flags, mastodon: &Option<PostOutcome>, twitter: &Option<PostOutcome>) -> (r: YawpOutput)
    requires
        flags.mastodon <==> *mastodon is Some,
        flags.twitter <==> *twitter is Some,
        *mastodon matches Some(o) ==> o.valid(),
        *twitter matches Some(o) ==> o.valid(),
    ensures
        line_views(r.stderr_lines@) == stderr_lines_spec(*mastodon, *twitter),
        r.stdout_line is Some <==> (stderr_lines_spec(*mastodon, *twitter).len() == 0
            && !flags.quiet),
        r.stdout_line matches Some(s) ==> s@ == yawp@,
{
    let mut stderr_lines: Vec<String> = Vec::new();
    if let Some(o) = mastodon {
        if let Some(line) = error_line("Mastodon", o) {
            let ghost before = stderr_lines@;
            stderr_lines.push(line);
            proof {
                assert(line_views(stderr_lines@) =~= line_views(before) + seq![stderr_lines@.last()@]);
            }
        }
    }
    let ghost after_mastodon = stderr_lines@;
    if let Some(o) = twitter {
        if let Some(line) = error_line("Twitter", o) {
            let ghost before = stderr_lines@;
            stderr_lines.push(line);
            proof {
                assert(line_views(stderr_lines@) =~= line_views(before) + seq![stderr_lines@.last()@]);
            }
        }
    }
    proof {
        assert(line_views(stderr_lines@) =~= stderr_lines_spec(*mastodon, *twitter));
    }
    let stdout_line = if stderr_lines.len() == 0 && !flags.quiet {
        Some(yawp.clone())
    } else {
        None
    };
    YawpOutput { stderr_lines, stdout_line }
}

} // verus!
