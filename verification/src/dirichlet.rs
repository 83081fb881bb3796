//! The Dirichlet distribution: its parameters and the assembly of a draw.

use crate::binary64::{
    at_most, is_positive, positive, positive_equality, positive_order, positive_patterns,
    same_value, small, sum, sum_of, tenth_fields, ONE, TENTH, ZERO,
};
use crate::error::Error;
use crate::simplex::{break_stick, normalize, normalized, stick_breaking};
use vstd::prelude::*;
use vstd::std_specs::cmp::PartialEqSpec;

verus! {

/// The two ways in which a draw is assembled.
#[derive(Clone, Copy, Debug, PartialEq, Eq, Structural)]
pub enum Strategy {
    /// The draw is broken off a unit stick by beta variates, one for each
    /// component but the last.
    StickBreaking,
    /// The draw is a vector of gamma variates, one for each component,
    /// scaled to sum to one.
    GammaNormalization,
}

/// One variate that a draw consumes, by the distribution it comes from.
#[derive(Clone, Copy, Debug, PartialEq, Eq, Structural)]
pub enum Request {
    /// A variate of the beta distribution with the shapes `a` and `b`.
    Beta { a: u64, b: u64 },
    /// A variate of the gamma distribution with the given shape and scale.
    Gamma { shape: u64, scale: u64 },
}

/// What a concentration vector must satisfy: at least two values, each of
/// them strictly above zero.
pub open spec fn valid(alpha: Seq<u64>) -> bool {
    &&& alpha.len() >= 2
    &&& forall|i: int| 0 <= i < alpha.len() ==> is_positive(#[trigger] alpha[i])
}

/// Whether every concentration value is at most one tenth.
pub open spec fn all_small(alpha: Seq<u64>) -> bool {
    forall|i: int| 0 <= i < alpha.len() ==> at_most(#[trigger] alpha[i], TENTH)
}

/// The strategy by which a draw for `alpha` is assembled. Gamma variates of
/// very small shape are zero too often to be scaled, so where every
/// concentration value is at most one tenth the stick is broken instead.
pub open spec fn strategy_for(alpha: Seq<u64>) -> Strategy {
    if all_small(alpha) {
        Strategy::StickBreaking
    } else {
        Strategy::GammaNormalization
    }
}

/// The sum of the concentration values from the index `from` on, added up
/// from the last one down, starting at zero.
pub open spec fn tail_total(alpha: Seq<u64>, from: int) -> u64
    decreases alpha.len() - from,
{
    if from < 0 || from >= alpha.len() {
        ZERO
    } else {
        sum_of(tail_total(alpha, from + 1), alpha[from])
    }
}

/// The variates that one draw for `alpha` consumes, in the order in which
/// they are drawn.
///
/// Breaking the stick takes a beta variate for each component but the last:
/// its first shape is the component's own concentration value, its second
/// the sum of those of the components that follow. Scaling takes a gamma
/// variate for each component, of the component's concentration value as
/// shape and of scale one.
pub open spec fn requests_for(alpha: Seq<u64>) -> Seq<Request> {
    match strategy_for(alpha) {
        Strategy::StickBreaking => Seq::new(
            (alpha.len() - 1) as nat,
            |i: int| (Request::Beta { a: alpha[i], b: tail_total(alpha, i + 1) }),
        ),
        Strategy::GammaNormalization => Seq::new(
            alpha.len(),
            |i: int| (Request::Gamma { shape: alpha[i], scale: ONE }),
        ),
    }
}

/// The draw for `alpha` that the variates `variates` give.
pub open spec fn draw(alpha: Seq<u64>, variates: Seq<u64>) -> Seq<u64> {
    match strategy_for(alpha) {
        Strategy::StickBreaking => stick_breaking(variates),
        Strategy::GammaNormalization => normalized(variates),
    }
}

/// The Dirichlet distribution `Dirichlet(alpha)`, a distribution over the
/// points of the probability simplex. It holds the concentration vector
/// `alpha`, which never changes once the value exists.
#[derive(Debug)]
pub struct Dirichlet {
    alpha: Vec<u64>,
}

impl View for Dirichlet {
    type V = Seq<u64>;

    /// The concentration vector.
    closed spec fn view(&self) -> Seq<u64> {
        self.alpha@
    }
}

impl Dirichlet {
    #[verifier::type_invariant]
    closed spec fn well_formed(&self) -> bool {
        valid(self.alpha@)
    }

    /// Makes the distribution with the concentration vector `alpha`.
    ///
    /// A vector of fewer than two values is refused as too short, whatever
    /// it holds. A longer one is refused if any value is zero, negative or
    /// NaN.
    pub fn new(alpha: &[u64]) -> (r: Result<Dirichlet, Error>)
        ensures
            r is Ok <==> valid(alpha@),
            r matches Ok(d) ==> d@ == alpha@,
            r == Err::<Dirichlet, Error>(Error::AlphaTooShort) <==> alpha@.len() < 2,
            r == Err::<Dirichlet, Error>(Error::AlphaTooSmall) <==> alpha@.len() >= 2 && !valid(
                alpha@,
            ),
    {
        let n = alpha.len();
        if n < 2 {
            return Err(Error::AlphaTooShort);
        }
        let mut kept: Vec<u64> = Vec::with_capacity(n);
        let mut i: usize = 0;
        while i < n
            invariant
                n == alpha@.len(),
                2 <= n,
                i <= n,
                kept@ == alpha@.take(i as int),
                forall|j: int| 0 <= j < i ==> is_positive(#[trigger] alpha@[j]),
            decreases n - i,
        {
            let ai = alpha[i];
            if !positive(ai) {
                assert(!is_positive(alpha@[i as int]));
                return Err(Error::AlphaTooSmall);
            }
            kept.push(ai);
            assert(alpha@.take(i as int).push(ai) == alpha@.take(i + 1));
            i += 1;
        }
        assert(alpha@.take(n as int) == alpha@);
        Ok(Dirichlet { alpha: kept })
    }

    /// Makes the distribution whose concentration vector holds `alpha`,
    /// `size` times.
    ///
    /// A value that is zero, negative or NaN is refused, whatever the size.
    /// With a positive value, a size below two is refused.
    pub fn new_with_size(alpha: u64, size: usize) -> (r: Result<Dirichlet, Error>)
        ensures
            r is Ok <==> is_positive(alpha) && size >= 2,
            r matches Ok(d) ==> d@ == Seq::new(size as nat, |i: int| alpha),
            r == Err::<Dirichlet, Error>(Error::AlphaTooSmall) <==> !is_positive(alpha),
            r == Err::<Dirichlet, Error>(Error::SizeTooSmall) <==> is_positive(alpha) && size < 2,
    {
        if !positive(alpha) {
            return Err(Error::AlphaTooSmall);
        }
        if size < 2 {
            return Err(Error::SizeTooSmall);
        }
        let repeated = vec![alpha; size];
        assert(repeated@ =~= Seq::new(size as nat, |i: int| alpha));
        Ok(Dirichlet { alpha: repeated })
    }

    /// The concentration vector. It is valid, as that of every value of the
    /// type is.
    pub fn alpha(&self) -> (r: &[u64])
        ensures
            r@ == self@,
            valid(self@),
    {
        proof {
            use_type_invariant(self);
        }
        self.alpha.as_slice()
    }

    /// The strategy by which the draws of this distribution are assembled.
    pub fn strategy(&self) -> (r: Strategy)
        ensures
            r == strategy_for(self@),
    {
        let n = self.alpha.len();
        let mut i: usize = 0;
        while i < n
            invariant
                n == self.alpha@.len(),
                i <= n,
                forall|j: int| 0 <= j < i ==> at_most(#[trigger] self.alpha@[j], TENTH),
            decreases n - i,
        {
            if !small(self.alpha[i]) {
                assert(!at_most(self.alpha@[i as int], TENTH));
                return Strategy::GammaNormalization;
            }
            i += 1;
        }
        Strategy::StickBreaking
    }

    /// The variates that one draw consumes, in the order in which they are
    /// to be drawn.
    pub fn requests(&self) -> (r: Vec<Request>)
        ensures
            r@ == requests_for(self@),
    {
        proof {
            use_type_invariant(self);
        }
        let n = self.alpha.len();
        let mut wanted: Vec<Request> = Vec::with_capacity(n);
        match self.strategy() {
            Strategy::StickBreaking => {
                // tails[j] is the sum of the values from the index n - 1 - j on.
                let mut tails: Vec<u64> = Vec::with_capacity(n);
                let mut running: u64 = ZERO;
                let mut k: usize = n;
                while k > 1
                    invariant
                        n == self.alpha@.len(),
                        1 <= k <= n,
                        running == tail_total(self.alpha@, k as int),
                        tails@.len() == n - k,
                        forall|j: int|
                            0 <= j < tails@.len() ==> tails@[j] == tail_total(
                                self.alpha@,
                                n - 1 - j,
                            ),
                    decreases k,
                {
                    k -= 1;
                    running = sum(running, self.alpha[k]);
                    tails.push(running);
                }
                let mut i: usize = 0;
                while i < n - 1
                    invariant
                        n == self.alpha@.len(),
                        2 <= n,
                        i <= n - 1,
                        tails@.len() == n - 1,
                        forall|j: int|
                            0 <= j < tails@.len() ==> tails@[j] == tail_total(
                                self.alpha@,
                                n - 1 - j,
                            ),
                        wanted@.len() == i,
                        forall|j: int|
                            0 <= j < i ==> wanted@[j] == (Request::Beta {
                                a: self.alpha@[j],
                                b: tail_total(self.alpha@, j + 1),
                            }),
                    decreases n - 1 - i,
                {
                    wanted.push(Request::Beta { a: self.alpha[i], b: tails[n - 2 - i] });
                    i += 1;
                }
                assert(wanted@ =~= requests_for(self@));
            },
            Strategy::GammaNormalization => {
                let mut i: usize = 0;
                while i < n
                    invariant
                        n == self.alpha@.len(),
                        i <= n,
                        wanted@.len() == i,
                        forall|j: int|
                            0 <= j < i ==> wanted@[j] == (Request::Gamma {
                                shape: self.alpha@[j],
                                scale: ONE,
                            }),
                    decreases n - i,
                {
                    wanted.push(Request::Gamma { shape: self.alpha[i], scale: ONE });
                    i += 1;
                }
                assert(wanted@ =~= requests_for(self@));
            },
        }
        wanted
    }

    /// Assembles one draw from `variates`, which hold one variate for each
    /// of [`Dirichlet::requests`], in the same order, each drawn from the
    /// distribution that its request names.
    ///
    /// The draw then has as many components as the concentration vector.
    pub fn sample(&self, variates: &[u64]) -> (r: Vec<u64>)
        ensures
            r@ == draw(self@, variates@),
            variates@.len() == requests_for(self@).len() ==> r@.len() == self@.len(),
    {
        proof {
            use_type_invariant(self);
        }
        match self.strategy() {
            Strategy::StickBreaking => break_stick(variates),
            Strategy::GammaNormalization => normalize(variates),
        }
    }
}

impl Clone for Dirichlet {
    fn clone(&self) -> (r: Self)
        ensures
            r@ == self@,
    {
        proof {
            use_type_invariant(self);
        }
        Dirichlet { alpha: self.alpha.clone() }
    }
}

impl PartialEq for Dirichlet {
    /// Tells whether two distributions hold the same concentration vector.
    fn eq(&self, other: &Self) -> (r: bool) {
        let n = self.alpha.len();
        if n != other.alpha.len() {
            return false;
        }
        let mut i: usize = 0;
        while i < n
            invariant
                n == self.alpha@.len(),
                n == other.alpha@.len(),
                i <= n,
                forall|j: int| 0 <= j < i ==> self.alpha@[j] == other.alpha@[j],
            decreases n - i,
        {
            if self.alpha[i] != other.alpha[i] {
                return false;
            }
            i += 1;
        }
        assert(self.alpha@ =~= other.alpha@);
        true
    }
}

impl vstd::std_specs::cmp::PartialEqSpecImpl for Dirichlet {
    open spec fn obeys_eq_spec() -> bool {
        true
    }

    /// Two distributions are equal when their concentration vectors are.
    open spec fn eq_spec(&self, other: &Self) -> bool {
        self@ == other@
    }
}

/// A draw has one component for each concentration value, when it is
/// assembled from one variate for each request.
pub proof fn draw_has_the_length_of_alpha(alpha: Seq<u64>, variates: Seq<u64>)
    requires
        valid(alpha),
        variates.len() == requests_for(alpha).len(),
    ensures
        draw(alpha, variates).len() == alpha.len(),
{
}

/// The strategy turns at one tenth. A valid vector whose values are all at
/// most one tenth has the stick broken, by one beta variate for each
/// component but the last. A valid vector with a value above one tenth has
/// gamma variates scaled, one for each component. Between positive values
/// the patterns compare as the values do.
pub proof fn strategy_turns_at_one_tenth(alpha: Seq<u64>)
    requires
        valid(alpha),
    ensures
        strategy_for(alpha) == Strategy::StickBreaking <==> forall|i: int|
            0 <= i < alpha.len() ==> #[trigger] alpha[i] <= TENTH,
        strategy_for(alpha) == Strategy::GammaNormalization <==> exists|i: int|
            0 <= i < alpha.len() && #[trigger] alpha[i] > TENTH,
        strategy_for(alpha) == Strategy::StickBreaking ==> {
            &&& requests_for(alpha).len() == alpha.len() - 1
            &&& forall|i: int|
                0 <= i < alpha.len() - 1 ==> #[trigger] requests_for(alpha)[i] is Beta
        },
        strategy_for(alpha) == Strategy::GammaNormalization ==> {
            &&& requests_for(alpha).len() == alpha.len()
            &&& forall|i: int| 0 <= i < alpha.len() ==> #[trigger] requests_for(alpha)[i] is Gamma
        },
{
    tenth_fields();
    assert forall|i: int| 0 <= i < alpha.len() implies (at_most(#[trigger] alpha[i], TENTH)
        <==> alpha[i] <= TENTH) by {
        positive_order(alpha[i], TENTH);
    }
    if !all_small(alpha) {
        let i = choose|i: int| 0 <= i < alpha.len() && !at_most(#[trigger] alpha[i], TENTH);
        assert(alpha[i] > TENTH);
    }
}

/// Each request takes the concentration value of its own component as its
/// first parameter, and that value is positive. The scale of a gamma variate
/// is one. The second shape of a beta variate is the rounded sum of the
/// concentration values that follow.
pub proof fn requests_follow_alpha(alpha: Seq<u64>, i: int)
    requires
        valid(alpha),
        0 <= i < requests_for(alpha).len(),
    ensures
        0 <= i < alpha.len(),
        match requests_for(alpha)[i] {
            Request::Beta { a, b } => {
                &&& a == alpha[i]
                &&& is_positive(a)
                &&& b == tail_total(alpha, i + 1)
            },
            Request::Gamma { shape, scale } => {
                &&& shape == alpha[i]
                &&& is_positive(shape)
                &&& scale == ONE
                &&& is_positive(scale)
            },
        },
{
    positive_patterns(ONE);
}

/// Two distributions are equal exactly when their concentration vectors are
/// equal, value by value. The vectors of distributions are valid, and between
/// positive values the equality of values is that of patterns.
pub proof fn equality_follows_the_vectors(a: Dirichlet, b: Dirichlet)
    requires
        valid(a@),
        valid(b@),
    ensures
        a.eq_spec(&b) <==> {
            &&& a@.len() == b@.len()
            &&& forall|i: int| 0 <= i < a@.len() ==> same_value(#[trigger] a@[i], b@[i])
        },
{
    if a@.len() == b@.len() {
        assert forall|i: int| 0 <= i < a@.len() implies (same_value(#[trigger] a@[i], b@[i])
            <==> a@[i] == b@[i]) by {
            positive_equality(a@[i], b@[i]);
        }
        if forall|i: int| 0 <= i < a@.len() ==> same_value(#[trigger] a@[i], b@[i]) {
            assert(a@ =~= b@);
        }
    }
}

/// Sampling is reproducible: the same concentration values ask for the same
/// variates, and with the same variates they give the same draw, pattern
/// for pattern, whichever strategy assembles it.
pub proof fn draws_are_reproducible(
    alpha: Seq<u64>,
    beta: Seq<u64>,
    first: Seq<u64>,
    second: Seq<u64>,
)
    requires
        alpha.len() == beta.len(),
        forall|i: int| 0 <= i < alpha.len() ==> alpha[i] == beta[i],
        first.len() == second.len(),
        forall|i: int| 0 <= i < first.len() ==> first[i] == second[i],
    ensures
        requests_for(alpha) == requests_for(beta),
        draw(alpha, first) == draw(beta, second),
{
    assert(alpha =~= beta);
    assert(first =~= second);
}

} // verus!
