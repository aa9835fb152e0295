use vstd::prelude::*;

verus! {

/// The server's settings, read from the command line.
pub struct Config {
    pub url: String,
}

impl Config {
    /// The configuration given by the program arguments: the url is the first
    /// argument after the program name.
    pub fn new(args: &[String]) -> (r: Result<Config, &'static str>)
        ensures
            r is Err <==> args@.len() < 2,
            r matches Ok(c) ==> c.url@ == args@[1]@,
            r matches Err(e) ==> e@ == "Not enough arguments"@,
    {
        if args.len() < 2 {
            return Err("Not enough arguments");
        }
        let url = args[1].clone();
        Ok(Config { url })
    }
}

} // verus!
