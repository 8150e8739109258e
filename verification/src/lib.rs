//! A typed client library for the TVmaze metadata service.
//!
//! The verified core builds the request URLs (including percent-encoding of
//! free-text query parameters and the `embed[]=` fragments), classifies
//! responses of absence-meaningful endpoints (a 404 status is the sanctioned
//! "no such resource" signal, never an error), decodes response bodies into
//! the domain model, and parses the service's three ad-hoc temporal string
//! formats. HTTP transport stays outside the library.

use vstd::prelude::*;

pub mod classify;
pub mod digits;
pub mod episodes;
mod error;
pub mod json;
pub mod models;
pub mod people;
pub mod schedule;
pub mod search;
pub mod shows;
pub mod updates;
pub mod urlenc;
mod urls;

pub use error::DecodeError;

verus! {

/// Selects which related entities the service inlines into a response.
#[derive(Clone, Copy, Debug)]
pub struct Embed {
    pub episodes: bool,
    pub cast: bool,
    pub next_episode: bool,
}

impl Default for Embed {
    /// With no options enabled, no `embed[]=` token is emitted.
    fn default() -> (r: Self)
        ensures
            !r.episodes,
            !r.cast,
            !r.next_episode,
    {
        Embed { episodes: false, cast: false, next_episode: false }
    }
}

/// Pieces joined by a single `&` between neighbours: no leading, trailing
/// or doubled separator.
pub open spec fn join_amp(parts: Seq<Seq<char>>) -> Seq<char>
    decreases parts.len(),
{
    if parts.len() == 0 {
        seq![]
    } else if parts.len() == 1 {
        parts[0]
    } else {
        join_amp(parts.drop_last()) + seq!['&'] + parts.last()
    }
}

/// The `embed[]=` tokens an `Embed` enables, in their fixed order.
pub open spec fn embed_tokens(e: Embed) -> Seq<Seq<char>> {
    (if e.episodes {
        seq!["embed[]=episodes"@]
    } else {
        seq![]
    }) + (if e.cast {
        seq!["embed[]=cast"@]
    } else {
        seq![]
    }) + (if e.next_episode {
        seq!["embed[]=nextepisode"@]
    } else {
        seq![]
    })
}

/// What `Embed::fragment` returns: exactly the enabled tokens, joined
/// cleanly by `&`.
pub open spec fn spec_embed_fragment(e: Embed) -> Seq<char> {
    join_amp(embed_tokens(e))
}

proof fn lemma_join_amp_push(ps: Seq<Seq<char>>, p: Seq<char>)
    ensures
        ps.len() == 0 ==> join_amp(ps.push(p)) == p,
        ps.len() > 0 ==> join_amp(ps.push(p)) == join_amp(ps) + seq!['&'] + p,
{
    assert(ps.push(p).drop_last() =~= ps);
    assert(ps.push(p).last() == p);
}

fn join_with_amp(parts: &Vec<&str>) -> (r: String)
    ensures
        r@ == join_amp(parts@.map_values(|p: &str| p@)),
{
    proof {
        reveal_strlit("&");
    }
    let mut out = String::new();
    let mut i: usize = 0;
    while i < parts.len()
        invariant
            0 <= i <= parts@.len(),
            out@ == join_amp(parts@.map_values(|p: &str| p@).take(i as int)),
        decreases parts@.len() - i,
    {
        if i > 0 {
            out.append("&");
        }
        out.append(parts[i]);
        proof {
            reveal_strlit("&");
            let ps = parts@.map_values(|p: &str| p@);
            assert(ps.take(i as int + 1) =~= ps.take(i as int).push(parts@[i as int]@));
            lemma_join_amp_push(ps.take(i as int), parts@[i as int]@);
            assert("&"@ =~= seq!['&']);
            assert(out@ =~= join_amp(ps.take(i as int + 1)));
        }
        i += 1;
    }
    proof {
        let ps = parts@.map_values(|p: &str| p@);
        assert(ps.take(parts@.len() as int) =~= ps);
    }
    out
}

impl Embed {
    /// Encodes the configuration as a query-string fragment: the enabled
    /// `embed[]=` tokens joined by `&`, disabled options contributing
    /// neither a token nor a separator.
    pub fn fragment(&self) -> (r: String)
        ensures
            r@ == spec_embed_fragment(*self),
    {
        let mut parts: Vec<&str> = Vec::new();
        if self.episodes {
            parts.push("embed[]=episodes");
        }
        if self.cast {
            parts.push("embed[]=cast");
        }
        if self.next_episode {
            parts.push("embed[]=nextepisode");
        }
        proof {
            assert(parts@.map_values(|p: &str| p@) =~= embed_tokens(*self));
        }
        join_with_amp(&parts)
    }
}

} // verus!
