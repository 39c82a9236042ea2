use vstd::prelude::*;
use vstd::string::StringExecFns;
use crate::search::{matching_lines, search};
use crate::text::texts;

verus! {

/// What one run needs: what to look for, where, and how to compare.
#[derive(Debug, Clone)]
pub struct Config {
    pub query: String,
    pub filepath: String,
    pub ignore_case: bool,
}

/// Why a `Config` could not be built.
#[derive(Debug, Clone, Copy, PartialEq, Eq, Structural)]
pub enum ConfigError {
    /// No token was given for the query.
    MissingQuery,
    /// No token was given for the file path.
    MissingFilepath,
}

impl ConfigError {
    /// The text that tells the user what is missing.
    pub fn message(&self) -> (r: String)
        ensures
            *self == ConfigError::MissingQuery ==> r@ == "No query string found!"@,
            *self == ConfigError::MissingFilepath ==> r@ == "No filepath found!"@,
    {
        match self {
            ConfigError::MissingQuery => String::from_str("No query string found!"),
            ConfigError::MissingFilepath => String::from_str("No filepath found!"),
        }
    }
}

impl Config {
    /// Builds the configuration from the tokens that follow the program's name: the
    /// first is the query, the second the file path, and any further ones are
    /// ignored. Whether the file exists is not looked at.
    pub fn build(tokens: Vec<String>, ignore_case: bool) -> (r: Result<Config, ConfigError>)
        ensures
            tokens@.len() == 0 ==> r == Err::<Config, ConfigError>(ConfigError::MissingQuery),
            tokens@.len() == 1 ==> r == Err::<Config, ConfigError>(ConfigError::MissingFilepath),
            tokens@.len() >= 2 ==> r is Ok && r->Ok_0.query == tokens@[0] && r->Ok_0.filepath
                == tokens@[1] && r->Ok_0.ignore_case == ignore_case,
    {
        let mut tokens = tokens;
        if tokens.len() == 0 {
            return Err(ConfigError::MissingQuery);
        }
        if tokens.len() == 1 {
            return Err(ConfigError::MissingFilepath);
        }
        let filepath = tokens.swap_remove(1);
        let query = tokens.swap_remove(0);
        Ok(Config { query, filepath, ignore_case })
    }

    /// The lines of `content` that this configuration asks for.
    pub fn matches_in<'a>(&self, content: &'a str) -> (out: Vec<&'a str>)
        ensures
            texts(out@) == matching_lines(self.query@, content@, self.ignore_case),
    {
        search(self.query.as_str(), content, self.ignore_case)
    }
}

/// The notice that says which way of comparing is in use.
pub fn mode_notice(ignore_case: bool) -> (r: String)
    ensures
        ignore_case ==> r@ == "Ignoring case: true"@,
        !ignore_case ==> r@ == "Ignoring case: false"@,
{
    if ignore_case {
        String::from_str("Ignoring case: true")
    } else {
        String::from_str("Ignoring case: false")
    }
}

/// The given lines as one text, each followed by a line feed.
pub open spec fn rendered(lines: Seq<Seq<char>>) -> Seq<char>
    decreases lines.len(),
{
    if lines.len() == 0 {
        Seq::empty()
    } else {
        rendered(lines.drop_last()) + lines.last() + seq!['\n']
    }
}

/// Writes the lines out as one text, one per line and in order, with nothing added
/// but the line feed after each.
pub fn render(lines: &Vec<&str>) -> (r: String)
    ensures
        r@ == rendered(texts(lines@)),
{
    let mut r = String::new();
    let mut i: usize = 0;
    proof {
        assert(texts(lines@.subrange(0, 0)) =~= Seq::<Seq<char>>::empty());
    }
    while i < lines.len()
        invariant
            i <= lines.len(),
            r@ == rendered(texts(lines@.subrange(0, i as int))),
        decreases lines.len() - i,
    {
        proof {
            reveal_strlit("\n");
            let next = texts(lines@.subrange(0, i + 1));
            assert(next.drop_last() =~= texts(lines@.subrange(0, i as int)));
            assert(next.last() == lines@[i as int]@);
            assert("\n"@ =~= seq!['\n']);
        }
        r.append(lines[i]);
        r.append("\n");
        i += 1;
    }
    assert(lines@.subrange(0, i as int) =~= lines@);
    r
}

} // verus!
