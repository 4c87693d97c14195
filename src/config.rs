use vstd::prelude::*;

verus! {

/// The arguments that the loader reads, as character sequences.
pub open spec fn tokens_view(args: Seq<String>) -> Seq<Seq<char>> {
    args.map_values(|s: String| s@)
}

/// What a well-formed invocation yields: the query is token 1 and the
/// filename token 2; a sequence of fewer than three tokens yields nothing.
pub open spec fn parse_tokens(tokens: Seq<Seq<char>>) -> Option<(Seq<char>, Seq<char>)> {
    if tokens.len() < 3 {
        None
    } else {
        Some((tokens[1], tokens[2]))
    }
}

/// The message carried by the error that a short argument list yields.
pub open spec fn not_enough_arguments() -> Seq<char> {
    "not enough arguments"@
}

/// The query and filename of one invocation, borrowed from its arguments.
pub struct Config<'a> {
    pub query: &'a String,
    pub filename: &'a String,
}

impl<'a> Config<'a> {
    /// The pair (query, filename) as character sequences.
    pub open spec fn pair(&self) -> (Seq<char>, Seq<char>) {
        (self.query@, self.filename@)
    }

    /// Reads the query and filename from the invocation's arguments, where
    /// token 0 is the program name; extra tokens are ignored.
    pub fn new(args: &'a [String]) -> (r: Result<Self, &'a str>)
        ensures
            r is Err <==> args@.len() < 3,
            match r {
                Ok(c) => parse_tokens(tokens_view(args@)) == Some(c.pair()),
                Err(e) => e@ == not_enough_arguments(),
            },
    {
        if args.len() < 3 {
            return Err("not enough arguments");
        }
        let query = &args[1];
        let filename = &args[2];
        Ok(Config { query, filename })
    }
}

/// Any argument list of three or more tokens is accepted, and two such lists
/// that agree on their query and filename tokens give the same configuration,
/// whatever follows those tokens.
pub proof fn config_ignores_extra_tokens(a: Seq<String>, b: Seq<String>)
    requires
        a.len() >= 3,
        b.len() >= 3,
        a[1]@ == b[1]@,
        a[2]@ == b[2]@,
    ensures
        parse_tokens(tokens_view(a)) == Some((a[1]@, a[2]@)),
        parse_tokens(tokens_view(a)) == parse_tokens(tokens_view(b)),
{
}

} // verus!
