//! Errors from everywhere, with chains of context.
use vstd::prelude::*;

verus! {

#[verifier::external_type_specification]
#[verifier::external_body]
pub struct ExStrumParseError(strum::ParseError);

#[verifier::external_type_specification]
#[verifier::external_body]
pub struct ExUrlParseError(url::ParseError);

#[verifier::external_type_specification]
#[verifier::external_body]
pub struct ExSerdeJsonError(serde_json::Error);

#[verifier::external_type_specification]
#[verifier::external_body]
pub struct ExBacktrace(std::backtrace::Backtrace);

/// `std::backtrace::Backtrace::capture()`: the call stack here, when backtraces are enabled
/// in the environment.  What it holds depends on the machine and the run, so nothing is
/// stated of it.
#[verifier::external_body]
pub(crate) fn capture_backtrace() -> std::backtrace::Backtrace {
    std::backtrace::Backtrace::capture()
}

/// A result whose error is a [`GenericError`].
pub type GenericResult<T> = Result<T, GenericError>;

/// All errors from everywhere.
#[derive(Debug)]
pub enum GenericError {
    /// A string did not name a variant.
    StrumParseError(strum::ParseError),
    /// A URL did not parse.
    UrlParseError(url::ParseError),
    /// JSON did not (de)serialize.
    Serde(serde_json::Error),
    /// A plain message, with the call stack where it came up.
    Basic { message: String, backtrace: std::backtrace::Backtrace },
    /// An error with a line of context added on top.
    Context { context: String, source: Box<GenericError> },
}

/// How many context layers wrap the error.
pub open spec fn depth(e: GenericError) -> nat
    decreases e,
{
    match e {
        GenericError::Context { source, .. } => 1 + depth(*source),
        _ => 0,
    }
}

/// The error under all the context layers.
pub open spec fn innermost(e: GenericError) -> GenericError
    decreases e,
{
    match e {
        GenericError::Context { source, .. } => innermost(*source),
        _ => e,
    }
}

/// The contexts, outermost first.
pub open spec fn contexts(e: GenericError) -> Seq<Seq<char>>
    decreases e,
{
    match e {
        GenericError::Context { context, source } => seq![context@] + contexts(*source),
        _ => Seq::empty(),
    }
}

/// `parts` joined by newlines.
pub open spec fn join_lines_spec(parts: Seq<Seq<char>>) -> Seq<char>
    decreases parts.len(),
{
    if parts.len() == 0 {
        Seq::empty()
    } else if parts.len() == 1 {
        parts[0]
    } else {
        join_lines_spec(parts.drop_last()) + seq!['\n'] + parts.last()
    }
}

proof fn lemma_join_lines_push(parts: Seq<Seq<char>>, x: Seq<char>)
    ensures
        join_lines_spec(parts.push(x)) == if parts.len() == 0 {
            x
        } else {
            join_lines_spec(parts) + seq!['\n'] + x
        },
{
    assert(parts.push(x).drop_last() =~= parts);
}

/// Joining a first line in front of others puts a newline between them.
pub proof fn lemma_join_lines_prepend(x: Seq<char>, parts: Seq<Seq<char>>)
    ensures
        join_lines_spec(seq![x] + parts) == if parts.len() == 0 {
            x
        } else {
            x + seq!['\n'] + join_lines_spec(parts)
        },
    decreases parts.len(),
{
    if parts.len() == 0 {
        assert(seq![x] + parts =~= seq![x]);
    } else {
        lemma_join_lines_prepend(x, parts.drop_last());
        assert((seq![x] + parts).drop_last() =~= seq![x] + parts.drop_last());
        assert((seq![x] + parts).last() == parts.last());
        if parts.len() == 1 {
            assert(parts.drop_last() =~= Seq::<Seq<char>>::empty());
            assert(seq![x] + parts.drop_last() =~= seq![x]);
        }
    }
}

impl GenericError {
    /// Peels off every context layer: gives the innermost error and the contexts,
    /// outermost first, one per line.
    pub fn unwind(self) -> (res: (GenericError, String))
        ensures
            res.0 == innermost(self),
            res.1@ == join_lines_spec(contexts(self)),
    {
        let ghost original = self;
        let mut err = self;
        let mut lines: Vec<String> = Vec::new();
        loop
            invariant
                original == self,
                innermost(err) == innermost(original),
                contexts(original) == lines@.map_values(|s: String| s@) + contexts(err),
            decreases depth(err),
        {
            match err {
                GenericError::Context { source, context } => {
                    let ghost before = lines@.map_values(|s: String| s@);
                    let ghost ctx = context@;
                    lines.push(context);
                    assert(lines@.map_values(|s: String| s@) =~= before.push(ctx));
                    assert(before + (seq![ctx] + contexts(*source)) =~= before.push(ctx) + contexts(*source));
                    err = *source;
                },
                other => {
                    assert(innermost(other) == other);
                    assert(contexts(other) =~= Seq::<Seq<char>>::empty());
                    assert(lines@.map_values(|s: String| s@) + contexts(other) =~= lines@.map_values(|s: String| s@));
                    let joined = join_lines(&lines);
                    assert(joined@ == join_lines_spec(contexts(original)));
                    return (other, joined);
                },
            }
        }
    }

    /// Wraps the error in a layer of context.
    pub fn context(self, context: &str) -> (res: GenericError)
        ensures
            match res {
                GenericError::Context { context: c, source } => c@ == context@ && *source == self,
                _ => false,
            },
            innermost(res) == innermost(self),
            contexts(res) == seq![context@] + contexts(self),
    {
        GenericError::Context { context: context.to_owned(), source: Box::new(self) }
    }
}

/// `parts.join("\n")`.
pub fn join_lines(parts: &Vec<String>) -> (res: String)
    ensures
        res@ == join_lines_spec(parts@.map_values(|s: String| s@)),
{
    let mut res = String::new();
    let mut i: usize = 0;
    let ghost ps = parts@.map_values(|s: String| s@);
    assert(ps.take(0) =~= Seq::<Seq<char>>::empty());
    while i < parts.len()
        invariant
            i <= parts@.len(),
            ps == parts@.map_values(|s: String| s@),
            res@ == join_lines_spec(ps.take(i as int)),
        decreases parts@.len() - i,
    {
        proof {
            lemma_join_lines_push(ps.take(i as int), ps[i as int]);
            assert(ps.take(i + 1) =~= ps.take(i as int).push(ps[i as int]));
        }
        if i > 0 {
            proof {
                reveal_strlit("\n");
            }
            assert("\n"@ =~= seq!['\n']);
            res.append("\n");
        }
        res.append(parts[i].as_str());
        assert(res@ =~= join_lines_spec(ps.take(i + 1)));
        i += 1;
    }
    assert(ps.take(i as int) =~= ps);
    res
}

/// Adding a context and unwinding gives back the same innermost error, with the new
/// context as the first line.
pub proof fn lemma_context_then_unwind(e: GenericError, c: Seq<char>, res: GenericError)
    requires
        innermost(res) == innermost(e),
        contexts(res) == seq![c] + contexts(e),
    ensures
        innermost(res) == innermost(e),
        join_lines_spec(contexts(res)) == if contexts(e).len() == 0 {
            c
        } else {
            c + seq!['\n'] + join_lines_spec(contexts(e))
        },
{
    lemma_join_lines_prepend(c, contexts(e));
}

} // verus!
