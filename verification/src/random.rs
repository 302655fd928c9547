use rand::rngs::{OsRng, StdRng};
use rand::{Rng, SeedableRng};
use vstd::prelude::*;
use vstd::string::*;

verus! {

/// The letters that random names are drawn from.
pub const CHARSET: &'static str = "ABCDEFGHIJKLMNOPQRSTUVWXYZabcdefghijklmnopqrstuvwxyz";

/// The length of a random name.
pub const STR_LEN: usize = 20;

#[verifier::external_type_specification]
#[verifier::external_body]
pub struct ExStdRng(StdRng);

/// Calls `StdRng::from_rng(OsRng)`: a generator seeded from the operating
/// system, given as `None` where the system cannot supply a seed (the error
/// that `from_rng` returns). Whether the system supplies one is not up to
/// the caller, so nothing is promised of the outcome. The generator does not
/// reseed itself later.
#[verifier::external_body]
fn seeded_rng() -> (r: Option<StdRng>) {
    StdRng::from_rng(OsRng).ok()
}

/// Calls `Rng::gen_range` on `0..bound`, where `bound` is the number of
/// letters in `CHARSET`, so that the draw ranges over every letter. The
/// source asserts that the range is not empty, and the documentation
/// promises a value in the range; which value comes is left to chance.
/// Drawing from an `StdRng` involves no reseeding, so nothing else in it can
/// fail.
#[verifier::external_body]
fn gen_index(rng: &mut StdRng, bound: usize) -> (r: usize)
    requires
        bound == CHARSET@.len(),
        0 < bound,
    ensures
        r < bound,
{
    rng.gen_range(0..bound)
}

pub proof fn lemma_charset_len()
    ensures
        CHARSET@.len() == 52,
{
    reveal_strlit("ABCDEFGHIJKLMNOPQRSTUVWXYZabcdefghijklmnopqrstuvwxyz");
}

/// The letters of `CHARSET` are ASCII letters.
pub proof fn lemma_charset_letters()
    ensures
        forall|i: int|
            0 <= i < CHARSET@.len() ==> {
                let c = #[trigger] CHARSET@[i];
                ('A' <= c <= 'Z') || ('a' <= c <= 'z')
            },
{
    reveal_strlit("ABCDEFGHIJKLMNOPQRSTUVWXYZabcdefghijklmnopqrstuvwxyz");
    assert(CHARSET@ =~= seq!['A', 'B', 'C', 'D', 'E', 'F', 'G', 'H', 'I', 'J', 'K', 'L', 'M', 'N', 'O', 'P', 'Q', 'R', 'S', 'T', 'U', 'V', 'W', 'X', 'Y', 'Z', 'a', 'b', 'c', 'd', 'e', 'f', 'g', 'h', 'i', 'j', 'k', 'l', 'm', 'n', 'o', 'p', 'q', 'r', 's', 't', 'u', 'v', 'w', 'x', 'y', 'z']);
}

/// A name made of letters of `CHARSET`, such as `gen_random_string` gives,
/// holds no path separator and no dot: it names a single folder.
pub proof fn lemma_charset_name_is_one_component(name: Seq<char>)
    requires
        forall|i: int| 0 <= i < name.len() ==> CHARSET@.contains(#[trigger] name[i]),
    ensures
        !name.contains('/'),
        !name.contains('.'),
{
    lemma_charset_letters();
    if name.contains('/') {
        let i = choose|i: int| 0 <= i < name.len() && name[i] == '/';
        assert(CHARSET@.contains(name[i]));
    }
    if name.contains('.') {
        let i = choose|i: int| 0 <= i < name.len() && name[i] == '.';
        assert(CHARSET@.contains(name[i]));
    }
}

/// The letters of `CHARSET` at the given positions, in order.
pub open spec fn letters_at(indices: Seq<usize>) -> Seq<char> {
    indices.map_values(|k: usize| CHARSET@[k as int])
}

/// The string of the letters of `CHARSET` at the given positions.
pub fn string_from_indices(indices: &Vec<usize>) -> (r: String)
    requires
        forall|i: int| 0 <= i < indices.len() ==> indices[i] < CHARSET@.len(),
    ensures
        r@ == letters_at(indices@),
{
    proof {
        lemma_charset_len();
    }
    let mut s = String::new();
    let n = indices.len();
    for i in 0..n
        invariant
            n == indices.len(),
            CHARSET@.len() == 52,
            forall|j: int| 0 <= j < indices.len() ==> indices[j] < CHARSET@.len(),
            s@ == letters_at(indices@.take(i as int)),
    {
        let k = indices[i];
        let letter = CHARSET.substring_char(k, k + 1);
        s.append(letter);
        assert(indices@.take(i + 1) =~= indices@.take(i as int).push(k));
        assert(letter@ =~= seq![CHARSET@[k as int]]);
        assert(letters_at(indices@.take(i + 1)) =~= letters_at(indices@.take(i as int)).push(
            CHARSET@[k as int],
        ));
    }
    assert(indices@.take(n as int) =~= indices@);
    s
}

/// A source of random positions in `CHARSET`: a seeded generator, and the
/// record of every position drawn from it so far.
pub struct DrawSource {
    rng: StdRng,
    log: Ghost<Seq<usize>>,
}

impl DrawSource {
    /// The positions drawn from this source so far, oldest first.
    pub closed spec fn draws(&self) -> Seq<usize> {
        self.log@
    }

    /// A freshly seeded source with nothing drawn yet, or `None` where the
    /// operating system could not seed it.
    pub fn new() -> (r: Option<DrawSource>)
        ensures
            r matches Some(d) ==> d.draws() == Seq::<usize>::empty(),
    {
        match seeded_rng() {
            Some(rng) => Some(DrawSource { rng, log: Ghost(Seq::empty()) }),
            None => None,
        }
    }

    /// Draws one position in `CHARSET`; the draw is added to the record.
    pub fn draw(&mut self) -> (r: usize)
        ensures
            r < CHARSET@.len(),
            final(self).draws() == old(self).draws().push(r),
    {
        proof {
            lemma_charset_len();
        }
        let r = gen_index(&mut self.rng, 52);
        self.log = Ghost(self.log@.push(r));
        r
    }
}

/// A name of `STR_LEN` letters, one per draw: it makes exactly `STR_LEN`
/// draws from the source, and its `i`-th letter is the letter of `CHARSET`
/// at the `i`-th of them.
pub fn random_name(source: &mut DrawSource) -> (r: String)
    ensures
        final(source).draws().len() == old(source).draws().len() + STR_LEN,
        final(source).draws().take(old(source).draws().len() as int) == old(source).draws(),
        r@ == letters_at(final(source).draws().skip(old(source).draws().len() as int)),
        forall|i: int|
            old(source).draws().len() <= i < final(source).draws().len() ==> #[trigger] final(source).draws()[i] < CHARSET@.len(),
{
    proof {
        lemma_charset_len();
    }
    let ghost start = source.draws();
    let mut indices: Vec<usize> = Vec::new();
    for _i in 0..STR_LEN
        invariant
            CHARSET@.len() == 52,
            indices.len() == _i,
            source.draws() == start + indices@,
            forall|j: int| 0 <= j < indices.len() ==> indices[j] < CHARSET@.len(),
    {
        let k = source.draw();
        indices.push(k);
        assert(source.draws() =~= start + indices@);
    }
    assert(source.draws().take(start.len() as int) =~= start);
    assert(source.draws().skip(start.len() as int) =~= indices@);
    assert forall|i: int| start.len() <= i < source.draws().len() implies #[trigger] source.draws()[i]
        < CHARSET@.len() by {
        assert(source.draws()[i] == indices@[i - start.len()]);
    }
    string_from_indices(&indices)
}

/// A name of `STR_LEN` letters drawn at random from `CHARSET`, each letter
/// from a draw of its own from a freshly seeded source, or `None` where the
/// operating system could not seed the source.
pub fn gen_random_string() -> (r: Option<String>)
    ensures
        r matches Some(s) ==> s@.len() == STR_LEN && forall|i: int|
            0 <= i < s@.len() ==> CHARSET@.contains(#[trigger] s@[i]),
{
    proof {
        lemma_charset_len();
    }
    let mut source = match DrawSource::new() {
        Some(source) => source,
        None => {
            return None;
        },
    };
    let r = random_name(&mut source);
    let ghost indices = source.draws();
    assert forall|i: int| 0 <= i < r@.len() implies CHARSET@.contains(#[trigger] r@[i]) by {
        assert(indices.skip(0) =~= indices);
        assert(indices[i] < CHARSET@.len());
        assert(CHARSET@[indices[i] as int] == r@[i]);
    }
    Some(r)
}

} // verus!
