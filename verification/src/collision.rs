use vstd::prelude::*;

verus! {

/// The sign of a measured quantity: below zero, zero, or above zero.
/// (A quantity that is not a number compares as neither, so it is `Zero`.)
#[derive(Clone, Copy, PartialEq, Eq, Debug, Hash, Structural)]
pub enum Sign {
    Negative,
    Zero,
    Positive,
}

/// The sign of the negated quantity.
pub open spec fn negated(s: Sign) -> Sign {
    match s {
        Sign::Negative => Sign::Positive,
        Sign::Zero => Sign::Zero,
        Sign::Positive => Sign::Negative,
    }
}

impl Sign {
    /// The sign of the quantity once it is negated.
    pub fn negate(self) -> (r: Sign)
        ensures
            r == negated(self),
    {
        match self {
            Sign::Negative => Sign::Positive,
            Sign::Zero => Sign::Zero,
            Sign::Positive => Sign::Negative,
        }
    }
}

/// Which face of a collider the ball struck.
#[derive(Clone, Copy, PartialEq, Eq, Debug, Hash, Structural)]
pub enum Collision {
    Left,
    Right,
    Top,
    Bottom,
}

/// What the geometry of one test of a ball against a collider's box gives:
/// whether the two overlap, whether the offset from the box's closest point
/// to the ball's centre is longer across than up, and the signs of that
/// offset's two components.
#[derive(Clone, Copy, PartialEq, Eq, Debug, Hash, Structural)]
pub struct Overlap {
    pub intersects: bool,
    pub horizontal: bool,
    pub offset_x: Sign,
    pub offset_y: Sign,
}

/// The face that an overlap reports: across, the left face when the ball's
/// centre lies left of the box, else the right face; up, the top face when
/// it lies above, else the bottom face.
pub open spec fn collision_side(o: Overlap) -> Collision {
    if o.horizontal {
        if o.offset_x == Sign::Negative {
            Collision::Left
        } else {
            Collision::Right
        }
    } else if o.offset_y == Sign::Positive {
        Collision::Top
    } else {
        Collision::Bottom
    }
}

/// The face that an overlap reports, or `None` where the two do not overlap.
pub open spec fn collision_of(o: Overlap) -> Option<Collision> {
    if o.intersects {
        Some(collision_side(o))
    } else {
        None
    }
}

/// Which face of the box the ball struck, or `None` where they do not overlap.
pub fn ball_collision(overlap: Overlap) -> (r: Option<Collision>)
    ensures
        r == collision_of(overlap),
{
    if !overlap.intersects {
        return None;
    }
    let side = if overlap.horizontal {
        if overlap.offset_x == Sign::Negative {
            Collision::Left
        } else {
            Collision::Right
        }
    } else if overlap.offset_y == Sign::Positive {
        Collision::Top
    } else {
        Collision::Bottom
    };
    Some(side)
}

/// The direction of the ball's velocity: the signs of its two components.
#[derive(Clone, Copy, PartialEq, Eq, Debug, Hash, Structural)]
pub struct Heading {
    pub x: Sign,
    pub y: Sign,
}

/// Which components of the ball's velocity a strike turns round.
#[derive(Clone, Copy, PartialEq, Eq, Debug, Hash, Structural)]
pub struct Bounce {
    pub reflect_x: bool,
    pub reflect_y: bool,
}

/// A strike on the left face turns round a ball that moves right; one on the
/// right face, a ball that moves left.
pub open spec fn reflects_x(c: Collision, h: Heading) -> bool {
    ||| c == Collision::Left && h.x == Sign::Positive
    ||| c == Collision::Right && h.x == Sign::Negative
}

/// A strike on the top face turns round a ball that moves down; one on the
/// bottom face, a ball that moves up.
pub open spec fn reflects_y(c: Collision, h: Heading) -> bool {
    ||| c == Collision::Top && h.y == Sign::Negative
    ||| c == Collision::Bottom && h.y == Sign::Positive
}

/// The heading after a strike on face `c`.
pub open spec fn heading_after_strike(h: Heading, c: Collision) -> Heading {
    Heading {
        x: if reflects_x(c, h) { negated(h.x) } else { h.x },
        y: if reflects_y(c, h) { negated(h.y) } else { h.y },
    }
}

/// Which components of the velocity a strike on `collision` turns round.
pub fn bounce(collision: Collision, velocity: Heading) -> (b: Bounce)
    ensures
        b.reflect_x == reflects_x(collision, velocity),
        b.reflect_y == reflects_y(collision, velocity),
{
    let mut reflect_x = false;
    let mut reflect_y = false;
    match collision {
        Collision::Left => reflect_x = velocity.x == Sign::Positive,
        Collision::Right => reflect_x = velocity.x == Sign::Negative,
        Collision::Top => reflect_y = velocity.y == Sign::Negative,
        Collision::Bottom => reflect_y = velocity.y == Sign::Positive,
    }
    Bounce { reflect_x, reflect_y }
}

impl Heading {
    /// The heading once the components that `b` names are turned round.
    pub fn reflected(self, b: Bounce) -> (h: Heading)
        ensures
            h.x == (if b.reflect_x { negated(self.x) } else { self.x }),
            h.y == (if b.reflect_y { negated(self.y) } else { self.y }),
    {
        let mut h = self;
        if b.reflect_x {
            h.x = h.x.negate();
        }
        if b.reflect_y {
            h.y = h.y.negate();
        }
        h
    }
}

/// What the collision test found for one collider in a frame: whether the
/// collider is a brick, which face of it the ball struck (if any), and, for a
/// brick, whether the paddle's position, taken with the ball's radius,
/// reaches its box.
#[derive(Clone, Copy, PartialEq, Eq, Debug, Hash, Structural)]
pub struct Contact {
    pub is_brick: bool,
    pub ball: Option<Collision>,
    pub paddle_touches: bool,
}

/// Whether the ball struck the collider of this contact.
pub open spec fn is_hit(c: Contact) -> bool {
    c.ball is Some
}

/// Whether this contact is a brick that the ball struck.
pub open spec fn is_brick_hit(c: Contact) -> bool {
    c.is_brick && c.ball is Some
}

/// Number of contacts in which the ball struck its collider.
pub open spec fn hits(contacts: Seq<Contact>) -> nat
    decreases contacts.len(),
{
    if contacts.len() == 0 {
        0
    } else {
        hits(contacts.drop_last()) + if is_hit(contacts.last()) {
            1nat
        } else {
            0nat
        }
    }
}

/// The ball's heading after the contacts, taken in order, from heading `h`.
pub open spec fn heading_after(h: Heading, contacts: Seq<Contact>) -> Heading
    decreases contacts.len(),
{
    if contacts.len() == 0 {
        h
    } else {
        let before = heading_after(h, contacts.drop_last());
        match contacts.last().ball {
            Some(c) => heading_after_strike(before, c),
            None => before,
        }
    }
}

/// Positions, in order, of the contacts that are bricks the ball struck.
pub open spec fn bricks_hit(contacts: Seq<Contact>) -> Seq<usize>
    decreases contacts.len(),
{
    if contacts.len() == 0 {
        Seq::empty()
    } else {
        let before = bricks_hit(contacts.drop_last());
        if is_brick_hit(contacts.last()) {
            before.push((contacts.len() - 1) as usize)
        } else {
            before
        }
    }
}

/// Whether some brick of the contacts is reached by the paddle.
pub open spec fn paddle_reaches_brick(contacts: Seq<Contact>) -> bool {
    exists|i: int| 0 <= i < contacts.len() && #[trigger] contacts[i].is_brick && contacts[i].paddle_touches
}

/// What a frame of contacts does.
#[derive(Clone, Debug, PartialEq, Eq)]
pub struct CollisionReport {
    /// The score after the frame.
    pub score: usize,
    /// How many strikes there were, each of which sounds once.
    pub collisions: usize,
    /// Positions in the contacts of the bricks to remove, in order.
    pub despawned: Vec<usize>,
    /// The ball's heading after the frame.
    pub velocity: Heading,
    /// Whether the velocity's x component ends up negated.
    pub flip_x: bool,
    /// Whether the velocity's y component ends up negated.
    pub flip_y: bool,
    /// Whether the game goes back to the menu.
    pub back_to_menu: bool,
}

proof fn lemma_hits_prefix(contacts: Seq<Contact>, i: int)
    requires
        0 <= i <= contacts.len(),
    ensures
        hits(contacts.take(i)) <= hits(contacts),
    decreases contacts.len(),
{
    if i < contacts.len() {
        assert(contacts.drop_last().take(i) =~= contacts.take(i));
        lemma_hits_prefix(contacts.drop_last(), i);
    } else {
        assert(contacts.take(i) =~= contacts);
    }
}

proof fn lemma_hits_bounded(contacts: Seq<Contact>)
    ensures
        hits(contacts) <= contacts.len(),
    decreases contacts.len(),
{
    if contacts.len() > 0 {
        lemma_hits_bounded(contacts.drop_last());
    }
}

/// How many of the contacts are strikes.
pub fn hit_count(contacts: &Vec<Contact>) -> (n: usize)
    ensures
        n == hits(contacts@),
{
    let mut n: usize = 0;
    let mut i: usize = 0;
    while i < contacts.len()
        invariant
            i <= contacts.len(),
            n == hits(contacts@.take(i as int)),
            n <= i,
        decreases contacts.len() - i,
    {
        proof {
            assert(contacts@.take(i + 1).drop_last() =~= contacts@.take(i as int));
        }
        if contacts[i].ball.is_some() {
            n = n + 1;
        }
        i = i + 1;
    }
    assert(contacts@.take(contacts.len() as int) =~= contacts@);
    n
}

/// What one frame of contacts does, as each is taken in turn: every strike
/// scores one point and sounds once; a struck brick is removed; the ball's
/// velocity is turned round as each strike calls for; and a brick that the
/// paddle reaches sends the game back to the menu.
pub fn check_for_collisions(score: usize, velocity: Heading, contacts: &Vec<Contact>) -> (report: CollisionReport)
    requires
        score + hits(contacts@) <= usize::MAX,
    ensures
        report.score == score + hits(contacts@),
        report.collisions == hits(contacts@),
        report.despawned@ == bricks_hit(contacts@),
        report.velocity == heading_after(velocity, contacts@),
        report.flip_x == (report.velocity.x != velocity.x),
        report.flip_y == (report.velocity.y != velocity.y),
        report.velocity.x == (if report.flip_x { negated(velocity.x) } else { velocity.x }),
        report.velocity.y == (if report.flip_y { negated(velocity.y) } else { velocity.y }),
        report.back_to_menu == paddle_reaches_brick(contacts@),
{
    let mut new_score: usize = score;
    let mut collisions: usize = 0;
    let mut despawned: Vec<usize> = Vec::new();
    let mut heading = velocity;
    let mut back_to_menu = false;
    let mut i: usize = 0;
    while i < contacts.len()
        invariant
            i <= contacts.len(),
            score + hits(contacts@) <= usize::MAX,
            collisions == hits(contacts@.take(i as int)),
            new_score == score + collisions,
            despawned@ == bricks_hit(contacts@.take(i as int)),
            heading == heading_after(velocity, contacts@.take(i as int)),
            back_to_menu == paddle_reaches_brick(contacts@.take(i as int)),
        decreases contacts.len() - i,
    {
        let contact = contacts[i];
        proof {
            let prefix = contacts@.take(i + 1);
            assert(prefix.drop_last() =~= contacts@.take(i as int));
            assert(prefix.last() == contact);
            lemma_hits_prefix(contacts@, i + 1);
            if paddle_reaches_brick(prefix) {
                let j = choose|j: int| 0 <= j < prefix.len() && #[trigger] prefix[j].is_brick && prefix[j].paddle_touches;
                if j < i {
                    assert(contacts@.take(i as int)[j] == prefix[j]);
                }
            }
            if back_to_menu {
                let j = choose|j: int| 0 <= j < i && #[trigger] contacts@.take(i as int)[j].is_brick && contacts@.take(i as int)[j].paddle_touches;
                assert(prefix[j] == contacts@.take(i as int)[j]);
            }
            if contact.is_brick && contact.paddle_touches {
                assert(prefix[i as int] == contact);
            }
        }
        if contact.is_brick && contact.paddle_touches {
            back_to_menu = true;
        }
        match contact.ball {
            Some(collision) => {
                collisions = collisions + 1;
                new_score = new_score + 1;
                if contact.is_brick {
                    despawned.push(i);
                }
                let b = bounce(collision, heading);
                heading = heading.reflected(b);
            },
            None => {},
        }
        i = i + 1;
    }
    assert(contacts@.take(contacts.len() as int) =~= contacts@);
    proof {
        lemma_frame_only_reverses(velocity, contacts@);
    }
    let flip_x = heading.x != velocity.x;
    let flip_y = heading.y != velocity.y;
    CollisionReport {
        score: new_score,
        collisions,
        despawned,
        velocity: heading,
        flip_x,
        flip_y,
        back_to_menu,
    }
}

/// A strike turns the ball away from the face it struck: after a strike on
/// the left face the ball does not move right, on the right face not left, on
/// the top face not down, on the bottom face not up; the other component is
/// left as it was.
pub proof fn lemma_strike_turns_ball_away(h: Heading, c: Collision)
    ensures
        c == Collision::Left ==> heading_after_strike(h, c).x != Sign::Positive,
        c == Collision::Right ==> heading_after_strike(h, c).x != Sign::Negative,
        c == Collision::Top ==> heading_after_strike(h, c).y != Sign::Negative,
        c == Collision::Bottom ==> heading_after_strike(h, c).y != Sign::Positive,
        (c == Collision::Left || c == Collision::Right) ==> heading_after_strike(h, c).y == h.y,
        (c == Collision::Top || c == Collision::Bottom) ==> heading_after_strike(h, c).x == h.x,
{
}

/// Striking the same face again changes nothing: the ball already moves away
/// from it.
pub proof fn lemma_strike_twice_is_once(h: Heading, c: Collision)
    ensures
        heading_after_strike(heading_after_strike(h, c), c) == heading_after_strike(h, c),
{
}

/// A frame only ever turns velocity components round: each component of the
/// final heading is the first one or its negation, so negating the
/// components that `flip_x` and `flip_y` name gives the final velocity.
pub proof fn lemma_frame_only_reverses(h: Heading, contacts: Seq<Contact>)
    ensures
        heading_after(h, contacts).x == h.x || heading_after(h, contacts).x == negated(h.x),
        heading_after(h, contacts).y == h.y || heading_after(h, contacts).y == negated(h.y),
    decreases contacts.len(),
{
    if contacts.len() > 0 {
        lemma_frame_only_reverses(h, contacts.drop_last());
    }
}

/// Each contact scores at most one point.
pub proof fn lemma_score_bounded(contacts: Seq<Contact>)
    ensures
        hits(contacts) <= contacts.len(),
{
    lemma_hits_bounded(contacts);
}

/// Exactly the bricks that the ball struck are removed, each once, in the
/// order of the contacts: no wall and no paddle is ever removed.
pub proof fn lemma_removed_are_struck_bricks(contacts: Seq<Contact>)
    requires
        contacts.len() <= usize::MAX,
    ensures
        forall|k: int|
            0 <= k < bricks_hit(contacts).len() ==> {
                let i = #[trigger] bricks_hit(contacts)[k] as int;
                0 <= i < contacts.len() && contacts[i].is_brick && contacts[i].ball is Some
            },
        forall|k1: int, k2: int|
            0 <= k1 < k2 < bricks_hit(contacts).len() ==> #[trigger] bricks_hit(contacts)[k1]
                < #[trigger] bricks_hit(contacts)[k2],
        forall|i: int|
            0 <= i < contacts.len() && (#[trigger] contacts[i]).is_brick && contacts[i].ball is Some ==> bricks_hit(
                contacts,
            ).contains(i as usize),
    decreases contacts.len(),
{
    if contacts.len() > 0 {
        let before = contacts.drop_last();
        lemma_removed_are_struck_bricks(before);
        let n = contacts.len() - 1;
        assert forall|k: int|
            0 <= k < bricks_hit(contacts).len() implies {
                let i = #[trigger] bricks_hit(contacts)[k] as int;
                0 <= i < contacts.len() && contacts[i].is_brick && contacts[i].ball is Some
            } by {
            if k < bricks_hit(before).len() {
                assert(bricks_hit(contacts)[k] == bricks_hit(before)[k]);
                assert(before[bricks_hit(before)[k] as int] == contacts[bricks_hit(before)[k] as int]);
            } else {
                assert(contacts.last().is_brick && contacts.last().ball is Some);
                assert(bricks_hit(contacts)[k] == n as usize);
            }
        }
        assert forall|k1: int, k2: int|
            0 <= k1 < k2 < bricks_hit(contacts).len() implies #[trigger] bricks_hit(contacts)[k1]
                < #[trigger] bricks_hit(contacts)[k2] by {
            assert(bricks_hit(contacts)[k1] == bricks_hit(before)[k1]);
            if k2 < bricks_hit(before).len() {
                assert(bricks_hit(contacts)[k2] == bricks_hit(before)[k2]);
            } else {
                assert(bricks_hit(contacts)[k2] == n as usize);
                assert(bricks_hit(before)[k1] < n);
            }
        }
        assert forall|i: int|
            0 <= i < contacts.len() && (#[trigger] contacts[i]).is_brick && contacts[i].ball is Some implies bricks_hit(
                contacts,
            ).contains(i as usize) by {
            if i < n {
                assert(before[i] == contacts[i]);
                let k = choose|k: int| 0 <= k < bricks_hit(before).len() && bricks_hit(before)[k] == i as usize;
                assert(bricks_hit(contacts)[k] == i as usize);
            } else {
                assert(bricks_hit(contacts).last() == i as usize);
            }
        }
    }
}

/// A frame may be taken in two parts: the strikes of the whole are those of
/// the parts, and the heading after the whole is the heading after the second
/// part, started from the heading after the first.
pub proof fn lemma_frame_in_two_parts(h: Heading, first: Seq<Contact>, second: Seq<Contact>)
    ensures
        hits(first + second) == hits(first) + hits(second),
        heading_after(h, first + second) == heading_after(heading_after(h, first), second),
    decreases second.len(),
{
    if second.len() == 0 {
        assert(first + second =~= first);
    } else {
        assert((first + second).drop_last() =~= first + second.drop_last());
        assert((first + second).last() == second.last());
        lemma_frame_in_two_parts(h, first, second.drop_last());
    }
}

/// An overlap as the geometry of a ball and a box yields it: where the offset
/// is longer across than up, its across component cannot be zero.
pub open spec fn overlap_from_geometry(o: Overlap) -> bool {
    o.horizontal ==> o.offset_x != Sign::Zero
}

/// The same overlap seen in a mirror standing on the line x = 0: the offset's
/// across component changes sign.
pub open spec fn mirrored_overlap(o: Overlap) -> Overlap {
    Overlap { offset_x: negated(o.offset_x), ..o }
}

/// The face seen in that mirror: left and right change places.
pub open spec fn mirrored_face(c: Collision) -> Collision {
    match c {
        Collision::Left => Collision::Right,
        Collision::Right => Collision::Left,
        other => other,
    }
}

/// Mirroring a ball and a box in the line x = 0 swaps a strike on the left face
/// and one on the right face, and leaves a miss, a top strike and a bottom
/// strike as they were.
pub proof fn lemma_mirror_swaps_left_and_right(o: Overlap)
    requires
        overlap_from_geometry(o),
    ensures
        collision_of(mirrored_overlap(o)) == (match collision_of(o) {
            Some(c) => Some(mirrored_face(c)),
            None => None::<Collision>,
        }),
{
}

/// The sign towards which the last strike across in the contacts turns the
/// ball, if any strike was across: right after a right-face strike, left
/// after a left-face strike.
pub open spec fn last_turn_x(contacts: Seq<Contact>) -> Option<Sign>
    decreases contacts.len(),
{
    if contacts.len() == 0 {
        None
    } else {
        match contacts.last().ball {
            Some(Collision::Left) => Some(Sign::Negative),
            Some(Collision::Right) => Some(Sign::Positive),
            _ => last_turn_x(contacts.drop_last()),
        }
    }
}

/// The sign towards which the last strike up or down in the contacts turns
/// the ball, if any: up after a top-face strike, down after a bottom-face one.
pub open spec fn last_turn_y(contacts: Seq<Contact>) -> Option<Sign>
    decreases contacts.len(),
{
    if contacts.len() == 0 {
        None
    } else {
        match contacts.last().ball {
            Some(Collision::Top) => Some(Sign::Positive),
            Some(Collision::Bottom) => Some(Sign::Negative),
            _ => last_turn_y(contacts.drop_last()),
        }
    }
}

/// Where a component of the heading ends after a frame: unchanged where no
/// strike turned that way, still where it was still, else towards the last
/// such strike.
pub open spec fn turned(s: Sign, turn: Option<Sign>) -> Sign {
    match turn {
        None => s,
        Some(t) => if s == Sign::Zero { Sign::Zero } else { t },
    }
}

/// The heading after a frame, in closed form: each moving component ends up
/// pointing as the last strike on a face across it, if there was one, asks.
pub proof fn lemma_heading_after_closed_form(h: Heading, contacts: Seq<Contact>)
    ensures
        last_turn_x(contacts) != Some(Sign::Zero),
        last_turn_y(contacts) != Some(Sign::Zero),
        heading_after(h, contacts).x == turned(h.x, last_turn_x(contacts)),
        heading_after(h, contacts).y == turned(h.y, last_turn_y(contacts)),
    decreases contacts.len(),
{
    if contacts.len() > 0 {
        lemma_heading_after_closed_form(h, contacts.drop_last());
    }
}

/// Running the same frame of contacts again from where it left the ball
/// changes nothing: the ball already moves away from every face it struck.
/// (Score and sounds depend on the contacts alone, so a repeat adds the same
/// again; see `check_for_collisions`.)
pub proof fn lemma_frame_twice_is_once(h: Heading, contacts: Seq<Contact>)
    ensures
        heading_after(heading_after(h, contacts), contacts) == heading_after(h, contacts),
{
    lemma_heading_after_closed_form(h, contacts);
    lemma_heading_after_closed_form(heading_after(h, contacts), contacts);
}

/// Negating a quantity: a still one stays still, a moving one turns the
/// other way, and negating twice gives the sign back.
pub proof fn lemma_negation(s: Sign)
    ensures
        negated(negated(s)) == s,
        (negated(s) == Sign::Zero) == (s == Sign::Zero),
        s != Sign::Zero ==> negated(s) != s,
        s == Sign::Positive ==> negated(s) == Sign::Negative,
{
}

/// How the face is decided, from the overlap's fields: no face without an
/// overlap; across, the left face exactly when the ball's centre is left of
/// the box and the right face otherwise, whatever the offset up; up, the top
/// face exactly when the centre is above the box and the bottom face
/// otherwise, whatever the offset across.
pub proof fn lemma_face_rules(o: Overlap)
    ensures
        (collision_of(o) is None) == !o.intersects,
        o.intersects && o.horizontal ==> (collision_of(o) == Some(Collision::Left)
            || collision_of(o) == Some(Collision::Right)),
        o.intersects && o.horizontal ==> ((collision_of(o) == Some(Collision::Left)) == (o.offset_x
            == Sign::Negative)),
        o.intersects && !o.horizontal ==> (collision_of(o) == Some(Collision::Top)
            || collision_of(o) == Some(Collision::Bottom)),
        o.intersects && !o.horizontal ==> ((collision_of(o) == Some(Collision::Top)) == (o.offset_y
            == Sign::Positive)),
        forall|sx: Sign|
            !o.horizontal ==> #[trigger] collision_of((Overlap { offset_x: sx, ..o })) == collision_of(o),
        forall|sy: Sign|
            o.horizontal ==> #[trigger] collision_of((Overlap { offset_y: sy, ..o })) == collision_of(o),
{
}

/// Every strike scores exactly one point, whatever the face and whatever the
/// collider, and a contact without a strike scores none: appending a contact
/// adds one to the count exactly when the ball struck it.
pub proof fn lemma_every_strike_scores_one(contacts: Seq<Contact>, c: Contact)
    ensures
        c.ball is Some ==> hits(seq![c]) == 1,
        c.ball is None ==> hits(seq![c]) == 0,
        hits(contacts.push(c)) == hits(contacts) + (if c.ball is Some {
            1int
        } else {
            0int
        }),
{
    assert(seq![c].drop_last() =~= Seq::<Contact>::empty());
    assert(seq![c].last() == c);
    assert(hits(Seq::<Contact>::empty()) == 0);
    assert(contacts.push(c).drop_last() =~= contacts);
}

/// One contact on its own: a strike turns the ball as a strike on that face
/// does, and a brick struck is removed; a miss changes nothing.
pub proof fn lemma_one_contact(h: Heading, c: Contact)
    ensures
        heading_after(h, seq![c]) == (match c.ball {
            Some(f) => heading_after_strike(h, f),
            None => h,
        }),
        bricks_hit(seq![c]) == (if c.is_brick && c.ball is Some {
            seq![0usize]
        } else {
            Seq::<usize>::empty()
        }),
{
    assert(seq![c].drop_last() =~= Seq::<Contact>::empty());
    assert(seq![c].last() == c);
    assert(heading_after(h, Seq::<Contact>::empty()) == h);
    assert(bricks_hit(Seq::<Contact>::empty()) == Seq::<usize>::empty());
    if c.is_brick && c.ball is Some {
        assert(Seq::<usize>::empty().push(0usize) =~= seq![0usize]);
    }
}

/// A brick that the paddle reaches sends the game back to the menu wherever
/// it stands among the contacts, and nothing taken before or after it undoes
/// that; where no brick is reached by the paddle, the game goes on.
pub proof fn lemma_menu_when_any_brick_reaches_paddle(first: Seq<Contact>, second: Seq<Contact>, i: int)
    ensures
        0 <= i < first.len() && first[i].is_brick && first[i].paddle_touches ==> paddle_reaches_brick(first),
        paddle_reaches_brick(first + second) == (paddle_reaches_brick(first) || paddle_reaches_brick(second)),
        paddle_reaches_brick(first) ==> paddle_reaches_brick(first + second),
        paddle_reaches_brick(second) ==> paddle_reaches_brick(first + second),
        (forall|j: int| 0 <= j < first.len() ==> !(#[trigger] first[j].is_brick && first[j].paddle_touches))
            ==> !paddle_reaches_brick(first),
{
    let all = first + second;
    if 0 <= i < first.len() && first[i].is_brick && first[i].paddle_touches {
        assert(first[i].is_brick);
    }
    if paddle_reaches_brick(first) {
        let j = choose|j: int| 0 <= j < first.len() && #[trigger] first[j].is_brick && first[j].paddle_touches;
        assert(all[j] == first[j]);
    }
    if paddle_reaches_brick(second) {
        let j = choose|j: int| 0 <= j < second.len() && #[trigger] second[j].is_brick && second[j].paddle_touches;
        assert(all[first.len() + j] == second[j]);
    }
    if paddle_reaches_brick(all) {
        let j = choose|j: int| 0 <= j < all.len() && #[trigger] all[j].is_brick && all[j].paddle_touches;
        if j < first.len() {
            assert(all[j] == first[j]);
        } else {
            assert(all[j] == second[j - first.len()]);
        }
    }
}

} // verus!
