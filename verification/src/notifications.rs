//! The texts of the messages posted to the team's chat channel.
use vstd::prelude::*;
use vstd::string::*;

verus! {

/// The characters `dev` stand in `s` at position `i`.
pub open spec fn dev_at(s: Seq<char>, i: int) -> bool {
    0 <= i && i + 3 <= s.len() && s[i] == 'd' && s[i + 1] == 'e' && s[i + 2] == 'v'
}

/// `s` contains `dev` (as in `development`).
pub open spec fn mentions_dev(s: Seq<char>) -> bool {
    exists|i: int| #[trigger] dev_at(s, i)
}

/// `s` contains the string `dev`: some three consecutive characters of `s`
/// are `dev`.
pub open spec fn has_dev_substring(s: Seq<char>) -> bool {
    exists|i: int| 0 <= i && i + 3 <= s.len() && #[trigger] s.subrange(i, i + 3) == "dev"@
}

/// Finding the characters `d`, `e`, `v` in a row is finding the string `dev`.
pub proof fn lemma_mentions_dev_is_dev_substring(s: Seq<char>)
    ensures
        mentions_dev(s) <==> has_dev_substring(s),
{
    reveal_strlit("dev");
    if mentions_dev(s) {
        let i = choose|i: int| #[trigger] dev_at(s, i);
        assert(s.subrange(i, i + 3) =~= "dev"@);
    }
    if has_dev_substring(s) {
        let i = choose|i: int| 0 <= i && i + 3 <= s.len() && #[trigger] s.subrange(i, i + 3) == "dev"@;
        assert(s.subrange(i, i + 3)[0] == s[i]);
        assert(s.subrange(i, i + 3)[1] == s[i + 1]);
        assert(s.subrange(i, i + 3)[2] == s[i + 2]);
        assert(dev_at(s, i));
    }
}

/// Posts messages about the server to the team's chat channel.
pub struct TeamsNotificationService;

impl TeamsNotificationService {
    /// The title of a message: the environment in parentheses, then the title.
    pub fn note_title(env: &str, title: &str) -> (s: String)
        ensures
            s@ == "("@ + env@ + ") "@ + title@,
    {
        let mut s = String::from_str("(");
        s.append(env);
        s.append(") ");
        s.append(title);
        s
    }

    /// The body of the message that reports a failed SQL statement.
    pub fn sql_error_message(sql: &str, error: &str) -> (s: String)
        ensures
            s@ == "<b>Error message</b>:<br/>"@ + error@ + "<br/><br/><b>Sql:</b><br/>"@ + sql@ + "<br/>"@,
    {
        let mut s = String::from_str("<b>Error message</b>:<br/>");
        s.append(error);
        s.append("<br/><br/><b>Sql:</b><br/>");
        s.append(sql);
        s.append("<br/>");
        s
    }

    /// Whether the environment is a development one, where SQL errors are
    /// only printed, not posted.
    pub fn is_dev_environment(env: &str) -> (b: bool)
        ensures
            b == mentions_dev(env@),
            b == has_dev_substring(env@),
    {
        proof {
            lemma_mentions_dev_is_dev_substring(env@);
        }
        let n = env.unicode_len();
        let mut i: usize = 0;
        while n >= 3 && i <= n - 3
            invariant
                n == env@.len(),
                i <= n,
                forall|j: int| 0 <= j < i ==> !#[trigger] dev_at(env@, j),
            decreases n - i,
        {
            if env.get_char(i) == 'd' && env.get_char(i + 1) == 'e' && env.get_char(i + 2) == 'v' {
                assert(dev_at(env@, i as int));
                proof {
                    lemma_mentions_dev_is_dev_substring(env@);
                }
                return true;
            }
            i = i + 1;
        }
        assert forall|j: int| !#[trigger] dev_at(env@, j) by {
            if 0 <= j < i {
            }
        }
        proof {
            lemma_mentions_dev_is_dev_substring(env@);
        }
        false
    }

    /// What to post about a failed SQL statement: nothing in a development
    /// environment (the error is printed there instead), else the message.
    pub fn sql_error_notice(env: &str, sql: &str, error: &str) -> (r: Option<String>)
        ensures
            mentions_dev(env@) ==> r is None,
            has_dev_substring(env@) ==> r is None,
            !has_dev_substring(env@) ==> (r matches Some(s) && s@ == "<b>Error message</b>:<br/>"@ + error@
                + "<br/><br/><b>Sql:</b><br/>"@ + sql@ + "<br/>"@),
            !mentions_dev(env@) ==> (r matches Some(s) && s@ == "<b>Error message</b>:<br/>"@ + error@
                + "<br/><br/><b>Sql:</b><br/>"@ + sql@ + "<br/>"@),
    {
        proof {
            lemma_mentions_dev_is_dev_substring(env@);
        }
        if Self::is_dev_environment(env) {
            None
        } else {
            Some(Self::sql_error_message(sql, error))
        }
    }
}

} // verus!
