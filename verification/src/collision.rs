//! What collisions do to the game: which bullets, enemies and mines go, what
//! bases and turrets take, and what the player scores. The caller measures
//! the distances; the rules here act on what was found in range.
use vstd::prelude::*;
use crate::base::{BaseState, BaseView};
use crate::enemy::EnemyType;
use crate::collections::{remove_indices, without_indices};

verus! {

/// Who fired a bullet.
#[derive(Clone, Copy, Debug, PartialEq, Eq, Structural)]
pub enum BulletType {
    Player,
    Enemy,
    HeavyTurret,
}

/// Damage a player bullet does to a base or a ground turret.
pub const BULLET_DAMAGE: i32 = 25;
/// Points for bringing down a base.
pub const BASE_DESTROYED_POINTS: u32 = 500;
/// Points for bringing down a ground turret.
pub const TURRET_DESTROYED_POINTS: u32 = 100;

/// Points for shooting down an enemy of each kind.
pub open spec fn enemy_score(t: EnemyType) -> nat {
    match t {
        EnemyType::Cube => 10,
        EnemyType::Pyramid => 20,
        EnemyType::Spinner => 30,
        EnemyType::Hunter => 40,
        EnemyType::Guardian => 50,
        EnemyType::Laser => 60,
        EnemyType::Swarm => 5,
        EnemyType::Phaser => 80,
        EnemyType::Shield => 100,
        EnemyType::Bomber => 70,
        EnemyType::Disruptor => 60,
        EnemyType::Carrier => 150,
        EnemyType::Reflector => 90,
        EnemyType::Vortex => 120,
    }
}

/// Every kind is worth between five points (a swarm, the only kind worth that
/// little) and a hundred and fifty (a carrier, the only kind worth that much),
/// in steps of five; a shield generator is worth more than every kind that
/// fires bullets.
pub proof fn law_enemy_scores(t: EnemyType)
    ensures
        5 <= enemy_score(t) <= 150,
        enemy_score(t) % 5 == 0,
        enemy_score(t) == 5 <==> t == EnemyType::Swarm,
        enemy_score(t) == 150 <==> t == EnemyType::Carrier,
        crate::enemy::shoots(t) ==> enemy_score(t) < enemy_score(EnemyType::Shield),
{
}

/// What one bullet was found close to, for the pass against bases: the bases
/// whose centre is within hit range, and the ground turrets (base, turret)
/// within hit range, both in the order the bases and turrets are stored.
pub struct BaseContacts {
    pub is_player: bool,
    pub bases: Vec<usize>,
    pub turrets: Vec<(usize, usize)>,
}

/// A bullet that struck a ground turret.
#[derive(Clone, Copy, Debug, PartialEq, Eq, Structural)]
pub struct TurretHit {
    pub bullet: usize,
    pub base: usize,
    pub turret: usize,
}

/// What one bullet was found close to, for the pass against enemies: the
/// enemies within hit range, in the order they are stored.
pub struct EnemyContacts {
    pub is_player: bool,
    pub enemies: Vec<usize>,
}

/// What the rules know of a list of bases.
pub open spec fn base_views(bases: Seq<BaseState>) -> Seq<BaseView> {
    Seq::new(bases.len(), |i: int| bases[i]@)
}

/// The first base in `cands` that still stands.
pub open spec fn first_standing_base(bases: Seq<BaseView>, cands: Seq<usize>) -> Option<usize>
    decreases cands.len(),
{
    if cands.len() == 0 {
        None
    } else if bases[cands[0] as int].is_active {
        Some(cands[0])
    } else {
        first_standing_base(bases, cands.drop_first())
    }
}

/// The first ground turret in `cands` that stands on a standing base.
pub open spec fn first_standing_turret(bases: Seq<BaseView>, cands: Seq<(usize, usize)>) -> Option<(usize, usize)>
    decreases cands.len(),
{
    if cands.len() == 0 {
        None
    } else if bases[cands[0].0 as int].is_active && bases[cands[0].0 as int].ground_turrets[cands[0].1 as int].is_active {
        Some(cands[0])
    } else {
        first_standing_turret(bases, cands.drop_first())
    }
}

/// The state of the pass against bases: the bases, the score, the bullets to
/// remove and the turret hits found so far.
pub type BasePassState = (Seq<BaseView>, int, Seq<usize>, Seq<TurretHit>);

/// What bullet `k`, with contacts `c`, does in the pass against bases. A player
/// bullet strikes the first standing base in range, which takes the bullet's
/// damage, the player scoring for a base it brings down; failing that, it
/// strikes the first standing turret in range, the damage being dealt
/// afterwards. A bullet that strikes anything is removed. Other bullets do
/// nothing here.
pub open spec fn base_bullet_step(s: BasePassState, k: int, c: BaseContacts) -> BasePassState {
    if !c.is_player {
        s
    } else {
        match first_standing_base(s.0, c.bases@) {
            Some(b) => {
                let nb = s.0[b as int].damaged(BULLET_DAMAGE as int);
                (
                    s.0.update(b as int, nb),
                    s.1 + if !nb.is_active { BASE_DESTROYED_POINTS as int } else { 0 },
                    s.2.push(k as usize),
                    s.3,
                )
            },
            None => match first_standing_turret(s.0, c.turrets@) {
                Some(bt) => (s.0, s.1, s.2.push(k as usize), s.3.push(TurretHit { bullet: k as usize, base: bt.0, turret: bt.1 })),
                None => s,
            },
        }
    }
}

/// The pass against bases over the first `n` bullets.
pub open spec fn base_pass(bases: Seq<BaseView>, score: int, contacts: Seq<BaseContacts>, n: int) -> BasePassState
    decreases n,
{
    if n <= 0 {
        (bases, score, Seq::empty(), Seq::empty())
    } else {
        base_bullet_step(base_pass(bases, score, contacts, n - 1), n - 1, contacts[n - 1])
    }
}

/// The contacts name existing bases and turrets.
pub open spec fn base_contacts_valid(bases: Seq<BaseView>, contacts: Seq<BaseContacts>) -> bool {
    &&& forall|k: int, i: int| 0 <= k < contacts.len() && 0 <= i < contacts[k].bases@.len()
        ==> (#[trigger] contacts[k].bases@[i]) < bases.len()
    &&& forall|k: int, i: int| 0 <= k < contacts.len() && 0 <= i < contacts[k].turrets@.len() ==> {
        let bt = #[trigger] contacts[k].turrets@[i];
        &&& bt.0 < bases.len()
        &&& bt.1 < bases[bt.0 as int].ground_turrets.len()
    }
}

/// Every base is well formed.
pub open spec fn all_bases_wf(bases: Seq<BaseView>) -> bool {
    forall|i: int| 0 <= i < bases.len() ==> (#[trigger] bases[i]).wf()
}

fn find_standing_base(bases: &Vec<BaseState>, cands: &Vec<usize>) -> (r: Option<usize>)
    requires
        forall|i: int| 0 <= i < cands@.len() ==> (#[trigger] cands@[i]) < bases@.len(),
    ensures
        r == first_standing_base(base_views(bases@), cands@),
        r matches Some(b) ==> b < bases@.len() && bases@[b as int].is_active,
{
    let mut j: usize = 0;
    assert(cands@.skip(0) =~= cands@);
    while j < cands.len()
        invariant
            j <= cands@.len(),
            forall|i: int| 0 <= i < cands@.len() ==> (#[trigger] cands@[i]) < bases@.len(),
            first_standing_base(base_views(bases@), cands@) == first_standing_base(base_views(bases@), cands@.skip(j as int)),
        decreases cands@.len() - j,
    {
        let b: usize = cands[j];
        assert(cands@.skip(j as int)[0] == b);
        if bases[b].is_active {
            return Some(b);
        }
        assert(cands@.skip(j as int).drop_first() =~= cands@.skip(j + 1));
        j = j + 1;
    }
    None
}

fn find_standing_turret(bases: &Vec<BaseState>, cands: &Vec<(usize, usize)>) -> (r: Option<(usize, usize)>)
    requires
        forall|i: int| 0 <= i < cands@.len() ==> {
            let bt = #[trigger] cands@[i];
            &&& bt.0 < bases@.len()
            &&& bt.1 < bases@[bt.0 as int].ground_turrets@.len()
        },
    ensures
        r == first_standing_turret(base_views(bases@), cands@),
        r matches Some(bt) ==> bt.0 < bases@.len() && bt.1 < bases@[bt.0 as int].ground_turrets@.len(),
{
    let mut j: usize = 0;
    assert(cands@.skip(0) =~= cands@);
    while j < cands.len()
        invariant
            j <= cands@.len(),
            forall|i: int| 0 <= i < cands@.len() ==> {
                let bt = #[trigger] cands@[i];
                &&& bt.0 < bases@.len()
                &&& bt.1 < bases@[bt.0 as int].ground_turrets@.len()
            },
            first_standing_turret(base_views(bases@), cands@) == first_standing_turret(base_views(bases@), cands@.skip(j as int)),
        decreases cands@.len() - j,
    {
        let bt: (usize, usize) = cands[j];
        assert(cands@.skip(j as int)[0] == bt);
        if bases[bt.0].is_active && bases[bt.0].ground_turrets[bt.1].is_active {
            return Some(bt);
        }
        assert(cands@.skip(j as int).drop_first() =~= cands@.skip(j + 1));
        j = j + 1;
    }
    None
}

/// The state of the turret pass: the bases, the score and, per hit so far,
/// whether it brought its turret down.
pub type TurretPassState = (Seq<BaseView>, int, Seq<bool>);

/// What one turret hit does: the turret takes the bullet's damage, and the
/// player scores for a turret it brings down.
pub open spec fn turret_hit_step(s: TurretPassState, h: TurretHit) -> TurretPassState {
    let b = s.0[h.base as int];
    let fell = b.turret_falls(h.turret as int, BULLET_DAMAGE as int);
    (
        s.0.update(h.base as int, b.turret_hit(h.turret as int, BULLET_DAMAGE as int)),
        s.1 + if fell { TURRET_DESTROYED_POINTS as int } else { 0 },
        s.2.push(fell),
    )
}

/// The turret pass over the first `n` hits.
pub open spec fn turret_pass(bases: Seq<BaseView>, score: int, hits: Seq<TurretHit>, n: int) -> TurretPassState
    decreases n,
{
    if n <= 0 {
        (bases, score, Seq::empty())
    } else {
        turret_hit_step(turret_pass(bases, score, hits, n - 1), hits[n - 1])
    }
}

/// Points for the enemies in `enemies`, by their kinds in `types`.
pub open spec fn contact_points(types: Seq<EnemyType>, enemies: Seq<usize>) -> int
    decreases enemies.len(),
{
    if enemies.len() == 0 {
        0
    } else {
        contact_points(types, enemies.drop_last()) + enemy_score(types[enemies.last() as int])
    }
}

/// The state of the pass against enemies: the score, the bullets and the
/// enemies to remove found so far.
pub type EnemyPassState = (int, Seq<usize>, Seq<usize>);

/// What bullet `k`, with contacts `c`, does in the pass against enemies: a
/// player bullet takes down every enemy in range, the player scoring for each;
/// the bullet is listed once per enemy it took down, and so is each enemy per
/// bullet that took it down. Other bullets do nothing here.
pub open spec fn enemy_bullet_step(s: EnemyPassState, types: Seq<EnemyType>, k: int, c: EnemyContacts) -> EnemyPassState {
    if c.is_player {
        (
            s.0 + contact_points(types, c.enemies@),
            s.1 + Seq::new(c.enemies@.len(), |i: int| k as usize),
            s.2 + c.enemies@,
        )
    } else {
        s
    }
}

/// The pass against enemies over the first `n` bullets.
pub open spec fn enemy_pass(types: Seq<EnemyType>, score: int, contacts: Seq<EnemyContacts>, n: int) -> EnemyPassState
    decreases n,
{
    if n <= 0 {
        (score, Seq::empty(), Seq::empty())
    } else {
        enemy_bullet_step(enemy_pass(types, score, contacts, n - 1), types, n - 1, contacts[n - 1])
    }
}

/// What bullet `k`, with contacts `c`, does in the collision system's pass
/// against enemies: a player bullet with an enemy in range takes down the first
/// one listed (the one stored first), the player scoring for it, and both are
/// listed once. Other bullets do nothing here.
pub open spec fn first_enemy_step(s: EnemyPassState, types: Seq<EnemyType>, k: int, c: EnemyContacts) -> EnemyPassState {
    if c.is_player && c.enemies@.len() > 0 {
        (s.0 + enemy_score(types[c.enemies@[0] as int]), s.1.push(k as usize), s.2.push(c.enemies@[0]))
    } else {
        s
    }
}

/// The collision system's pass against enemies over the first `n` bullets.
pub open spec fn first_enemy_pass(types: Seq<EnemyType>, score: int, contacts: Seq<EnemyContacts>, n: int) -> EnemyPassState
    decreases n,
{
    if n <= 0 {
        (score, Seq::empty(), Seq::empty())
    } else {
        first_enemy_step(first_enemy_pass(types, score, contacts, n - 1), types, n - 1, contacts[n - 1])
    }
}

/// The enemies of `to_remove` that no shield protects, in order.
pub open spec fn unshielded(to_remove: Seq<usize>, shielded: Seq<bool>) -> Seq<usize>
    decreases to_remove.len(),
{
    if to_remove.len() == 0 {
        Seq::empty()
    } else if shielded[to_remove.last() as int] {
        unshielded(to_remove.drop_last(), shielded)
    } else {
        unshielded(to_remove.drop_last(), shielded).push(to_remove.last())
    }
}

proof fn lemma_unshielded_bounded(to_remove: Seq<usize>, shielded: Seq<bool>, n: int)
    requires
        forall|i: int| 0 <= i < to_remove.len() ==> (#[trigger] to_remove[i]) < n,
    ensures
        forall|k: int| 0 <= k < unshielded(to_remove, shielded).len() ==> (#[trigger] unshielded(
            to_remove,
            shielded,
        )[k]) < n,
    decreases to_remove.len(),
{
    if to_remove.len() > 0 {
        let rest = to_remove.drop_last();
        assert forall|i: int| 0 <= i < rest.len() implies (#[trigger] rest[i]) < n by {
            assert(rest[i] == to_remove[i]);
        }
        lemma_unshielded_bounded(rest, shielded, n);
        let before = unshielded(rest, shielded);
        let after = unshielded(to_remove, shielded);
        assert forall|k: int| 0 <= k < after.len() implies (#[trigger] after[k]) < n by {
            if k < before.len() {
                assert(after[k] == before[k]);
            } else {
                assert(after[k] == to_remove.last());
            }
        }
    }
}

/// Shields make enemies invulnerable: no enemy that a shield protects is kept
/// for removal, and every other enemy that was hit is.
pub proof fn law_shield_spares(to_remove: Seq<usize>, shielded: Seq<bool>)
    requires
        forall|i: int| 0 <= i < to_remove.len() ==> (#[trigger] to_remove[i]) < shielded.len(),
    ensures
        forall|k: int| 0 <= k < unshielded(to_remove, shielded).len() ==> !shielded[#[trigger] unshielded(
            to_remove,
            shielded,
        )[k] as int],
        forall|i: int| 0 <= i < to_remove.len() && !shielded[#[trigger] to_remove[i] as int] ==> unshielded(
            to_remove,
            shielded,
        ).contains(to_remove[i]),
    decreases to_remove.len(),
{
    if to_remove.len() > 0 {
        let rest = to_remove.drop_last();
        assert forall|i: int| 0 <= i < rest.len() implies (#[trigger] rest[i]) < shielded.len() by {
            assert(rest[i] == to_remove[i]);
        }
        law_shield_spares(rest, shielded);
        let before = unshielded(rest, shielded);
        let after = unshielded(to_remove, shielded);
        assert forall|k: int| 0 <= k < after.len() implies !shielded[#[trigger] after[k] as int] by {
            if k < before.len() {
                assert(after[k] == before[k]);
            }
        }
        assert forall|i: int| 0 <= i < to_remove.len() && !shielded[#[trigger] to_remove[i] as int] implies after.contains(
            to_remove[i],
        ) by {
            if i < rest.len() {
                assert(rest[i] == to_remove[i]);
                assert(before.contains(rest[i]));
                let w = choose|w: int| 0 <= w < before.len() && before[w] == rest[i];
                assert(after[w] == before[w]);
            } else {
                assert(after[after.len() - 1] == to_remove[i]);
            }
        }
    }
}

proof fn lemma_first_standing_base(bases: Seq<BaseView>, cands: Seq<usize>)
    ensures
        first_standing_base(bases, cands) matches Some(b) ==> cands.contains(b) && bases[b as int].is_active,
        first_standing_base(bases, cands) is None ==> forall|j: int| 0 <= j < cands.len() ==> !bases[#[trigger] cands[j] as int].is_active,
    decreases cands.len(),
{
    if cands.len() > 0 && !bases[cands[0] as int].is_active {
        lemma_first_standing_base(bases, cands.drop_first());
        if let Some(b) = first_standing_base(bases, cands.drop_first()) {
            let w = choose|w: int| 0 <= w < cands.drop_first().len() && cands.drop_first()[w] == b;
            assert(cands[w + 1] == b);
        } else {
            assert forall|j: int| 0 <= j < cands.len() implies !bases[#[trigger] cands[j] as int].is_active by {
                if j > 0 {
                    assert(cands[j] == cands.drop_first()[j - 1]);
                }
            }
        }
    } else if cands.len() > 0 {
        assert(cands[0] == cands[0]);
    }
}

/// Whether the ground turret `bt` (base, turret) stands on a standing base.
pub open spec fn turret_stands(bases: Seq<BaseView>, bt: (usize, usize)) -> bool {
    bases[bt.0 as int].is_active && bases[bt.0 as int].ground_turrets[bt.1 as int].is_active
}

proof fn lemma_first_standing_turret(bases: Seq<BaseView>, cands: Seq<(usize, usize)>)
    ensures
        first_standing_turret(bases, cands) matches Some(bt) ==> cands.contains(bt) && turret_stands(bases, bt),
        first_standing_turret(bases, cands) is None ==> forall|j: int| 0 <= j < cands.len() ==> !turret_stands(bases, #[trigger] cands[j]),
    decreases cands.len(),
{
    if cands.len() > 0 && !turret_stands(bases, cands[0]) {
        lemma_first_standing_turret(bases, cands.drop_first());
        if let Some(bt) = first_standing_turret(bases, cands.drop_first()) {
            let w = choose|w: int| 0 <= w < cands.drop_first().len() && cands.drop_first()[w] == bt;
            assert(cands[w + 1] == bt);
        } else {
            assert forall|j: int| 0 <= j < cands.len() implies !turret_stands(bases, #[trigger] cands[j]) by {
                if j > 0 {
                    assert(cands[j] == cands.drop_first()[j - 1]);
                }
            }
        }
    } else if cands.len() > 0 {
        assert(cands[0] == cands[0]);
    }
}

/// A bullet only ever strikes what stands. A turret hit that a bullet makes
/// names a turret in its range that stands, on a base that stands, and the
/// bullet is removed with it; a bullet in whose range nothing stands (only
/// destroyed bases and fallen turrets) changes nothing: it is neither removed
/// nor recorded, and flies on.
pub proof fn law_bullet_strikes_only_standing(s: BasePassState, k: int, c: BaseContacts)
    ensures
        ({
            let t = base_bullet_step(s, k, c);
            &&& t.3.len() == s.3.len() || t.3.len() == s.3.len() + 1
            &&& t.3.len() == s.3.len() + 1 ==> {
                let h = t.3[t.3.len() - 1];
                &&& t.3 == s.3.push(h)
                &&& h.bullet == k as usize
                &&& c.is_player
                &&& c.turrets@.contains((h.base, h.turret))
                &&& turret_stands(s.0, (h.base, h.turret))
                &&& t.2 == s.2.push(k as usize)
                &&& t.0 == s.0
            }
            &&& (forall|j: int| 0 <= j < c.bases@.len() ==> !s.0[#[trigger] c.bases@[j] as int].is_active)
                && (forall|j: int| 0 <= j < c.turrets@.len() ==> !turret_stands(s.0, #[trigger] c.turrets@[j]))
                ==> t == s
        }),
{
    lemma_first_standing_base(s.0, c.bases@);
    lemma_first_standing_turret(s.0, c.turrets@);
    if c.is_player {
        if let Some(b) = first_standing_base(s.0, c.bases@) {
            let w = choose|w: int| 0 <= w < c.bases@.len() && c.bases@[w] == b;
            assert(s.0[c.bases@[w] as int].is_active);
        } else if let Some(bt) = first_standing_turret(s.0, c.turrets@) {
            let w = choose|w: int| 0 <= w < c.turrets@.len() && c.turrets@[w] == bt;
            assert(turret_stands(s.0, c.turrets@[w]));
        }
    }
}

/// Every turret hit of the pass against bases names a turret in its bullet's
/// range that stood, on a standing base, when that bullet came to be
/// resolved.
pub proof fn law_turret_hits_strike_standing(bases: Seq<BaseView>, score: int, contacts: Seq<BaseContacts>, n: int)
    requires
        0 <= n <= contacts.len(),
        contacts.len() <= usize::MAX,
    ensures
        forall|i: int| 0 <= i < base_pass(bases, score, contacts, n).3.len() ==> {
            let h = #[trigger] base_pass(bases, score, contacts, n).3[i];
            &&& 0 <= h.bullet < n
            &&& contacts[h.bullet as int].turrets@.contains((h.base, h.turret))
            &&& turret_stands(base_pass(bases, score, contacts, h.bullet as int).0, (h.base, h.turret))
        },
    decreases n,
{
    if n > 0 {
        law_turret_hits_strike_standing(bases, score, contacts, n - 1);
        let prev = base_pass(bases, score, contacts, n - 1);
        let p = base_pass(bases, score, contacts, n);
        law_bullet_strikes_only_standing(prev, n - 1, contacts[n - 1]);
        assert forall|i: int| 0 <= i < p.3.len() implies {
            let h = #[trigger] p.3[i];
            &&& 0 <= h.bullet < n
            &&& contacts[h.bullet as int].turrets@.contains((h.base, h.turret))
            &&& turret_stands(base_pass(bases, score, contacts, h.bullet as int).0, (h.base, h.turret))
        } by {
            if i < prev.3.len() {
                assert(p.3[i] == prev.3[i]);
            } else {
                assert(((n - 1) as usize) as int == n - 1);
            }
        }
    }
}

/// Over the pass against bases, the list of bases keeps its length and a
/// base that was down stays down: no bullet ever strikes a destroyed base.
pub proof fn law_base_pass_keeps_destroyed(bases: Seq<BaseView>, score: int, contacts: Seq<BaseContacts>, n: int)
    requires
        0 <= n <= contacts.len(),
        base_contacts_valid(bases, contacts),
    ensures
        base_pass(bases, score, contacts, n).0.len() == bases.len(),
        forall|i: int| 0 <= i < bases.len() && !bases[i].is_active ==> base_pass(bases, score, contacts, n).0[i]
            == bases[i],
    decreases n,
{
    if n > 0 {
        law_base_pass_keeps_destroyed(bases, score, contacts, n - 1);
        let prev = base_pass(bases, score, contacts, n - 1);
        let c = contacts[n - 1];
        if c.is_player {
            lemma_first_standing_base(prev.0, c.bases@);
            if let Some(b) = first_standing_base(prev.0, c.bases@) {
                let w = choose|w: int| 0 <= w < c.bases@.len() && c.bases@[w] == b;
                assert(contacts[n - 1].bases@[w] < bases.len());
                assert forall|i: int| 0 <= i < bases.len() && !bases[i].is_active implies base_pass(
                    bases,
                    score,
                    contacts,
                    n,
                ).0[i] == bases[i] by {
                    assert(prev.0[i] == bases[i]);
                    assert(i != b as int);
                }
            }
        }
    }
}

/// The number of enemies in range over the first `n` contacts.
pub open spec fn contacts_in_range(contacts: Seq<EnemyContacts>, n: int) -> int
    decreases n,
{
    if n <= 0 {
        0
    } else {
        contacts_in_range(contacts, n - 1) + contacts[n - 1].enemies@.len()
    }
}

proof fn lemma_contact_points_bounded(types: Seq<EnemyType>, enemies: Seq<usize>)
    ensures
        0 <= contact_points(types, enemies) <= 150 * enemies.len(),
    decreases enemies.len(),
{
    if enemies.len() > 0 {
        lemma_contact_points_bounded(types, enemies.drop_last());
    }
}

/// What one frame can score is bounded: a bullet brings down at most one
/// base, worth five hundred points; a turret hit is worth at most a hundred;
/// an enemy in range of a bullet at most a hundred and fifty.
pub proof fn law_frame_score_bounded(
    bases: Seq<BaseView>,
    types: Seq<EnemyType>,
    score: int,
    base_contacts: Seq<BaseContacts>,
    hits: Seq<TurretHit>,
    enemy_contacts: Seq<EnemyContacts>,
    n: int,
)
    requires
        n >= 0,
    ensures
        score <= base_pass(bases, score, base_contacts, n).1 <= score + 500 * n,
        score <= turret_pass(bases, score, hits, n).1 <= score + 100 * n,
        score <= enemy_pass(types, score, enemy_contacts, n).0 <= score + 150 * contacts_in_range(enemy_contacts, n),
    decreases n,
{
    if n > 0 {
        law_frame_score_bounded(bases, types, score, base_contacts, hits, enemy_contacts, n - 1);
        lemma_contact_points_bounded(types, enemy_contacts[n - 1].enemies@);
    }
}

/// The score only grows over the turret pass.
pub proof fn law_turret_pass_score_grows(bases: Seq<BaseView>, score: int, hits: Seq<TurretHit>, m: int, n: int)
    requires
        0 <= m <= n,
    ensures
        turret_pass(bases, score, hits, m).1 <= turret_pass(bases, score, hits, n).1,
    decreases n - m,
{
    if m < n {
        law_turret_pass_score_grows(bases, score, hits, m, n - 1);
    }
}

proof fn lemma_contact_points_nonneg(types: Seq<EnemyType>, enemies: Seq<usize>)
    ensures
        contact_points(types, enemies) >= 0,
    decreases enemies.len(),
{
    if enemies.len() > 0 {
        lemma_contact_points_nonneg(types, enemies.drop_last());
    }
}

/// The score only grows over the pass against enemies.
pub proof fn law_enemy_pass_score_grows(types: Seq<EnemyType>, score: int, contacts: Seq<EnemyContacts>, m: int, n: int)
    requires
        0 <= m <= n,
    ensures
        enemy_pass(types, score, contacts, m).0 <= enemy_pass(types, score, contacts, n).0,
    decreases n - m,
{
    if m < n {
        law_enemy_pass_score_grows(types, score, contacts, m, n - 1);
        lemma_contact_points_nonneg(types, contacts[n - 1].enemies@);
    }
}

/// The score only grows over the collision system's pass against enemies.
pub proof fn law_first_enemy_pass_score_grows(types: Seq<EnemyType>, score: int, contacts: Seq<EnemyContacts>, m: int, n: int)
    requires
        0 <= m <= n,
    ensures
        first_enemy_pass(types, score, contacts, m).0 <= first_enemy_pass(types, score, contacts, n).0,
    decreases n - m,
{
    if m < n {
        law_first_enemy_pass_score_grows(types, score, contacts, m, n - 1);
    }
}

/// In the collision system's pass against enemies a bullet takes down at most
/// one enemy: the bullets come out in increasing order, each once, beside the
/// enemy it took down, which is the first one in its range; every player
/// bullet with an enemy in range is among them; and the score grows by the
/// points of the enemies taken down.
pub proof fn law_one_enemy_per_bullet(types: Seq<EnemyType>, score: int, contacts: Seq<EnemyContacts>, n: int)
    requires
        0 <= n <= contacts.len(),
        contacts.len() <= usize::MAX,
    ensures
        ({
            let p = first_enemy_pass(types, score, contacts, n);
            &&& p.1.len() == p.2.len()
            &&& forall|i: int, j: int| 0 <= i < j < p.1.len() ==> p.1[i] < p.1[j]
            &&& forall|i: int| #![trigger p.1[i]] 0 <= i < p.1.len() ==> {
                &&& p.1[i] < n
                &&& contacts[p.1[i] as int].is_player
                &&& contacts[p.1[i] as int].enemies@.len() > 0
                &&& p.2[i] == contacts[p.1[i] as int].enemies@[0]
            }
            &&& forall|k: int| 0 <= k < n && contacts[k].is_player && contacts[k].enemies@.len() > 0
                ==> p.1.contains(k as usize)
            &&& p.0 == score + contact_points(types, p.2)
        }),
    decreases n,
{
    if n > 0 {
        law_one_enemy_per_bullet(types, score, contacts, n - 1);
        let prev = first_enemy_pass(types, score, contacts, n - 1);
        let p = first_enemy_pass(types, score, contacts, n);
        let c = contacts[n - 1];
        if c.is_player && c.enemies@.len() > 0 {
            let k = (n - 1) as usize;
            assert(k as int == n - 1);
            assert(p.1 == prev.1.push(k));
            assert(p.2 == prev.2.push(c.enemies@[0]));
            assert(p.2.drop_last() =~= prev.2);
            assert forall|i: int| #![trigger p.1[i]] 0 <= i < p.1.len() implies {
                &&& p.1[i] < n
                &&& contacts[p.1[i] as int].is_player
                &&& contacts[p.1[i] as int].enemies@.len() > 0
                &&& p.2[i] == contacts[p.1[i] as int].enemies@[0]
            } by {
                if i < prev.1.len() {
                    assert(p.1[i] == prev.1[i]);
                    assert(p.2[i] == prev.2[i]);
                }
            }
            assert forall|i: int, j: int| 0 <= i < j < p.1.len() implies p.1[i] < p.1[j] by {
                assert(p.1[i] == prev.1[i]);
                if j < prev.1.len() {
                    assert(p.1[j] == prev.1[j]);
                }
            }
            assert forall|m: int| 0 <= m < n && contacts[m].is_player && contacts[m].enemies@.len() > 0
                implies p.1.contains(m as usize) by {
                if m < n - 1 {
                    let w = choose|w: int| 0 <= w < prev.1.len() && prev.1[w] == m as usize;
                    assert(p.1[w] == prev.1[w]);
                } else {
                    assert(p.1[p.1.len() - 1] == k);
                }
            }
        } else {
            assert(p == prev);
        }
    }
}

proof fn lemma_contact_points_prefix(types: Seq<EnemyType>, enemies: Seq<usize>, j: int)
    requires
        0 < j <= enemies.len(),
    ensures
        contact_points(types, enemies.take(j)) == contact_points(types, enemies.take(j - 1))
            + enemy_score(types[enemies[j - 1] as int]),
        contact_points(types, enemies.take(j)) <= contact_points(types, enemies),
    decreases enemies.len() - j,
{
    assert(enemies.take(j).drop_last() =~= enemies.take(j - 1));
    if j < enemies.len() {
        lemma_contact_points_prefix(types, enemies, j + 1);
    } else {
        assert(enemies.take(j) =~= enemies);
    }
}

/// The score only grows over the pass against bases.
pub proof fn law_base_pass_score_grows(bases: Seq<BaseView>, score: int, contacts: Seq<BaseContacts>, m: int, n: int)
    requires
        0 <= m <= n,
    ensures
        base_pass(bases, score, contacts, m).1 <= base_pass(bases, score, contacts, n).1,
    decreases n - m,
{
    if m < n {
        law_base_pass_score_grows(bases, score, contacts, m, n - 1);
    }
}

/// In the pass against bases each bullet strikes at most one thing: the
/// bullets to remove come in increasing order, each at most once, and each is
/// a player bullet; and so does every turret hit.
pub proof fn law_base_pass_one_strike_per_bullet(bases: Seq<BaseView>, score: int, contacts: Seq<BaseContacts>, n: int)
    requires
        0 <= n <= contacts.len(),
        contacts.len() <= usize::MAX,
    ensures
        ({
            let p = base_pass(bases, score, contacts, n);
            &&& forall|i: int, j: int| 0 <= i < j < p.2.len() ==> p.2[i] < p.2[j]
            &&& forall|i: int| 0 <= i < p.2.len() ==> p.2[i] < n && contacts[p.2[i] as int].is_player
            &&& forall|i: int, j: int| 0 <= i < j < p.3.len() ==> p.3[i].bullet < p.3[j].bullet
            &&& forall|i: int| 0 <= i < p.3.len() ==> p.3[i].bullet < n && contacts[p.3[i].bullet as int].is_player
        }),
    decreases n,
{
    if n > 0 {
        law_base_pass_one_strike_per_bullet(bases, score, contacts, n - 1);
        let prev = base_pass(bases, score, contacts, n - 1);
        let c = contacts[n - 1];
        let p = base_pass(bases, score, contacts, n);
        assert(p == base_bullet_step(prev, n - 1, c));
        let k = (n - 1) as usize;
        assert(k as int == n - 1);
        assert(p.2 == prev.2 || (p.2 == prev.2.push(k) && c.is_player));
        assert(p.3 == prev.3 || (p.3 == prev.3.push(p.3.last()) && p.3.last().bullet == k && c.is_player));
        if p.2 != prev.2 {
            assert forall|i: int| 0 <= i < p.2.len() implies p.2[i] < n && contacts[p.2[i] as int].is_player by {
                if i < prev.2.len() {
                    assert(p.2[i] == prev.2[i]);
                }
            }
            assert forall|i: int, j: int| 0 <= i < j < p.2.len() implies p.2[i] < p.2[j] by {
                assert(p.2[i] == prev.2[i]);
                if j < prev.2.len() {
                    assert(p.2[j] == prev.2[j]);
                }
            }
        }
        if p.3 != prev.3 {
            assert forall|i: int| 0 <= i < p.3.len() implies p.3[i].bullet < n && contacts[p.3[i].bullet as int].is_player by {
                if i < prev.3.len() {
                    assert(p.3[i] == prev.3[i]);
                }
            }
            assert forall|i: int, j: int| 0 <= i < j < p.3.len() implies p.3[i].bullet < p.3[j].bullet by {
                assert(p.3[i] == prev.3[i]);
                if j < prev.3.len() {
                    assert(p.3[j] == prev.3[j]);
                }
            }
        }
    }
}

/// Collision bookkeeping of the frame.
pub struct CollisionSystem;

impl CollisionSystem {
    /// The pass of the player's bullets against bases and their ground turrets,
    /// bullet by bullet in order: see `base_bullet_step`. Answers the bullets to
    /// remove and the turret hits, whose damage `process_turret_hits` deals.
    pub fn check_bullet_base_collisions(
        contacts: &Vec<BaseContacts>,
        bases: &mut Vec<BaseState>,
        score: &mut u32,
    ) -> (r: (Vec<usize>, Vec<TurretHit>))
        requires
            base_contacts_valid(base_views(old(bases)@), contacts@),
            all_bases_wf(base_views(old(bases)@)),
            base_pass(base_views(old(bases)@), *old(score) as int, contacts@, contacts@.len() as int).1 <= u32::MAX,
        ensures
            ({
                let p = base_pass(base_views(old(bases)@), *old(score) as int, contacts@, contacts@.len() as int);
                &&& base_views(final(bases)@) == p.0
                &&& *final(score) == p.1
                &&& r.0@ == p.2
                &&& r.1@ == p.3
            }),
            all_bases_wf(base_views(final(bases)@)),
    {
        let ghost b0 = base_views(bases@);
        let ghost s0 = *score as int;
        let n: usize = contacts.len();
        let mut removed: Vec<usize> = Vec::new();
        let mut hits: Vec<TurretHit> = Vec::new();
        let mut k: usize = 0;
        while k < n
            invariant
                n == contacts@.len(),
                k <= n,
                base_contacts_valid(b0, contacts@),
                base_pass(b0, s0, contacts@, n as int).1 <= u32::MAX,
                bases@.len() == b0.len(),
                forall|i: int| 0 <= i < b0.len() ==> (#[trigger] bases@[i]).ground_turrets@.len()
                    == b0[i].ground_turrets.len(),
                all_bases_wf(base_views(bases@)),
                ({
                    let p = base_pass(b0, s0, contacts@, k as int);
                    &&& base_views(bases@) == p.0
                    &&& *score == p.1
                    &&& removed@ == p.2
                    &&& hits@ == p.3
                }),
            decreases n - k,
        {
            let ghost prev = base_pass(b0, s0, contacts@, k as int);
            proof {
                law_base_pass_score_grows(b0, s0, contacts@, k + 1, n as int);
                assert(base_contacts_valid(base_views(bases@), contacts@));
            }
            let c: &BaseContacts = &contacts[k];
            if c.is_player {
                match find_standing_base(bases, &c.bases) {
                    Some(b) => {
                        bases[b].take_damage(BULLET_DAMAGE);
                        if !bases[b].is_active {
                            *score = *score + BASE_DESTROYED_POINTS;
                        }
                        removed.push(k);
                        proof {
                            assert(base_views(bases@) =~= prev.0.update(b as int, prev.0[b as int].damaged(BULLET_DAMAGE as int)));
                        }
                    },
                    None => {
                        match find_standing_turret(bases, &c.turrets) {
                            Some(bt) => {
                                removed.push(k);
                                hits.push(TurretHit { bullet: k, base: bt.0, turret: bt.1 });
                            },
                            None => {},
                        }
                    },
                }
            }
            k = k + 1;
        }
        (removed, hits)
    }

    /// Deals the damage of the turret hits, in order: see `turret_hit_step`.
    /// Answers, per hit, whether it brought its turret down.
    pub fn process_turret_hits(hits: &Vec<TurretHit>, bases: &mut Vec<BaseState>, score: &mut u32) -> (fell: Vec<bool>)
        requires
            forall|i: int| 0 <= i < hits@.len() ==> (#[trigger] hits@[i]).base < old(bases)@.len(),
            all_bases_wf(base_views(old(bases)@)),
            turret_pass(base_views(old(bases)@), *old(score) as int, hits@, hits@.len() as int).1 <= u32::MAX,
        ensures
            ({
                let p = turret_pass(base_views(old(bases)@), *old(score) as int, hits@, hits@.len() as int);
                &&& base_views(final(bases)@) == p.0
                &&& *final(score) == p.1
                &&& fell@ == p.2
            }),
            all_bases_wf(base_views(final(bases)@)),
    {
        let ghost b0 = base_views(bases@);
        let ghost s0 = *score as int;
        let n: usize = hits.len();
        let mut fell: Vec<bool> = Vec::new();
        let mut k: usize = 0;
        while k < n
            invariant
                n == hits@.len(),
                k <= n,
                forall|i: int| 0 <= i < hits@.len() ==> (#[trigger] hits@[i]).base < b0.len(),
                turret_pass(b0, s0, hits@, n as int).1 <= u32::MAX,
                bases@.len() == b0.len(),
                all_bases_wf(base_views(bases@)),
                ({
                    let p = turret_pass(b0, s0, hits@, k as int);
                    &&& base_views(bases@) == p.0
                    &&& *score == p.1
                    &&& fell@ == p.2
                }),
            decreases n - k,
        {
            let ghost prev = turret_pass(b0, s0, hits@, k as int);
            proof {
                law_turret_pass_score_grows(b0, s0, hits@, k + 1, n as int);
            }
            let h: TurretHit = hits[k];
            assert(bases@[h.base as int]@.wf());
            let down: bool = bases[h.base].damage_ground_turret(h.turret, BULLET_DAMAGE);
            if down {
                *score = *score + TURRET_DESTROYED_POINTS;
            }
            fell.push(down);
            proof {
                let nb = prev.0[h.base as int].turret_hit(h.turret as int, BULLET_DAMAGE as int);
                assert(base_views(bases@) =~= prev.0.update(h.base as int, nb));
                assert(nb.wf());
            }
            k = k + 1;
        }
        fell
    }

    /// Points for shooting down an enemy of the kind `enemy_type`.
    pub fn get_enemy_score(enemy_type: EnemyType) -> (r: u32)
        ensures
            r == enemy_score(enemy_type),
    {
        match enemy_type {
            EnemyType::Cube => 10,
            EnemyType::Pyramid => 20,
            EnemyType::Spinner => 30,
            EnemyType::Hunter => 40,
            EnemyType::Guardian => 50,
            EnemyType::Laser => 60,
            EnemyType::Swarm => 5,
            EnemyType::Phaser => 80,
            EnemyType::Shield => 100,
            EnemyType::Bomber => 70,
            EnemyType::Disruptor => 60,
            EnemyType::Carrier => 150,
            EnemyType::Reflector => 90,
            EnemyType::Vortex => 120,
        }
    }

    /// The collision system's pass of the player's bullets against enemies,
    /// bullet by bullet in order: see `first_enemy_step`. A bullet takes down
    /// the first enemy in its range only. `enemy_types[i]` is the kind of enemy
    /// `i`. Answers the bullets and the enemies to remove, side by side: the
    /// bullets in increasing order, each once, each beside the first enemy in
    /// its range; every player bullet with an enemy in range is listed; and the
    /// score grows by the points of the enemies listed.
    pub fn check_bullet_enemy_collisions(
        contacts: &Vec<EnemyContacts>,
        enemy_types: &Vec<EnemyType>,
        score: &mut u32,
    ) -> (r: (Vec<usize>, Vec<usize>))
        requires
            forall|k: int, i: int| 0 <= k < contacts@.len() && 0 <= i < contacts@[k].enemies@.len()
                ==> (#[trigger] contacts@[k].enemies@[i]) < enemy_types@.len(),
            first_enemy_pass(enemy_types@, *old(score) as int, contacts@, contacts@.len() as int).0 <= u32::MAX,
        ensures
            ({
                let p = first_enemy_pass(enemy_types@, *old(score) as int, contacts@, contacts@.len() as int);
                &&& *final(score) == p.0
                &&& r.0@ == p.1
                &&& r.1@ == p.2
            }),
            r.0@.len() == r.1@.len(),
            forall|i: int, j: int| 0 <= i < j < r.0@.len() ==> r.0@[i] < r.0@[j],
            forall|i: int| #![trigger r.0@[i]] 0 <= i < r.0@.len() ==> {
                &&& r.0@[i] < contacts@.len()
                &&& contacts@[r.0@[i] as int].is_player
                &&& contacts@[r.0@[i] as int].enemies@.len() > 0
                &&& r.1@[i] == contacts@[r.0@[i] as int].enemies@[0]
            },
            forall|k: int| 0 <= k < contacts@.len() && contacts@[k].is_player && contacts@[k].enemies@.len() > 0
                ==> r.0@.contains(k as usize),
            *final(score) == *old(score) + contact_points(enemy_types@, r.1@),
    {
        let ghost s0 = *score as int;
        let n: usize = contacts.len();
        let mut bullets: Vec<usize> = Vec::new();
        let mut enemies: Vec<usize> = Vec::new();
        let mut k: usize = 0;
        while k < n
            invariant
                n == contacts@.len(),
                k <= n,
                forall|k2: int, i: int| 0 <= k2 < contacts@.len() && 0 <= i < contacts@[k2].enemies@.len()
                    ==> (#[trigger] contacts@[k2].enemies@[i]) < enemy_types@.len(),
                first_enemy_pass(enemy_types@, s0, contacts@, n as int).0 <= u32::MAX,
                ({
                    let p = first_enemy_pass(enemy_types@, s0, contacts@, k as int);
                    &&& *score == p.0
                    &&& bullets@ == p.1
                    &&& enemies@ == p.2
                }),
            decreases n - k,
        {
            proof {
                law_first_enemy_pass_score_grows(enemy_types@, s0, contacts@, k + 1, n as int);
            }
            let c: &EnemyContacts = &contacts[k];
            if c.is_player && c.enemies.len() > 0 {
                let e: usize = c.enemies[0];
                assert(contacts@[k as int].enemies@[0] == e);
                *score = *score + Self::get_enemy_score(enemy_types[e]);
                bullets.push(k);
                enemies.push(e);
            }
            k = k + 1;
        }
        proof {
            law_one_enemy_per_bullet(enemy_types@, s0, contacts@, n as int);
        }
        (bullets, enemies)
    }

    /// The sweep of the player's bullets through the enemies that a frame of
    /// the game makes, bullet by bullet in order: see `enemy_bullet_step`; a
    /// bullet takes down every enemy in its range. `enemy_types[i]` is the kind
    /// of enemy `i`. Answers the bullets and the enemies to remove (with
    /// repetitions, which the removal ignores).
    pub fn check_bullet_enemy_sweep(
        contacts: &Vec<EnemyContacts>,
        enemy_types: &Vec<EnemyType>,
        score: &mut u32,
    ) -> (r: (Vec<usize>, Vec<usize>))
        requires
            forall|k: int, i: int| 0 <= k < contacts@.len() && 0 <= i < contacts@[k].enemies@.len()
                ==> (#[trigger] contacts@[k].enemies@[i]) < enemy_types@.len(),
            enemy_pass(enemy_types@, *old(score) as int, contacts@, contacts@.len() as int).0 <= u32::MAX,
        ensures
            ({
                let p = enemy_pass(enemy_types@, *old(score) as int, contacts@, contacts@.len() as int);
                &&& *final(score) == p.0
                &&& r.0@ == p.1
                &&& r.1@ == p.2
            }),
    {
        let ghost s0 = *score as int;
        let n: usize = contacts.len();
        let mut bullets: Vec<usize> = Vec::new();
        let mut enemies: Vec<usize> = Vec::new();
        let mut k: usize = 0;
        while k < n
            invariant
                n == contacts@.len(),
                k <= n,
                forall|k2: int, i: int| 0 <= k2 < contacts@.len() && 0 <= i < contacts@[k2].enemies@.len()
                    ==> (#[trigger] contacts@[k2].enemies@[i]) < enemy_types@.len(),
                enemy_pass(enemy_types@, s0, contacts@, n as int).0 <= u32::MAX,
                ({
                    let p = enemy_pass(enemy_types@, s0, contacts@, k as int);
                    &&& *score == p.0
                    &&& bullets@ == p.1
                    &&& enemies@ == p.2
                }),
            decreases n - k,
        {
            let ghost prev = enemy_pass(enemy_types@, s0, contacts@, k as int);
            proof {
                law_enemy_pass_score_grows(enemy_types@, s0, contacts@, k + 1, n as int);
            }
            let c: &EnemyContacts = &contacts[k];
            if c.is_player {
                let m: usize = c.enemies.len();
                let mut j: usize = 0;
                while j < m
                    invariant
                        m == c.enemies@.len(),
                        j <= m,
                        c == contacts@[k as int],
                        c.is_player,
                        forall|i: int| 0 <= i < c.enemies@.len() ==> (#[trigger] c.enemies@[i]) < enemy_types@.len(),
                        prev.0 + contact_points(enemy_types@, c.enemies@) <= u32::MAX,
                        *score == prev.0 + contact_points(enemy_types@, c.enemies@.take(j as int)),
                        bullets@ == prev.1 + Seq::new(j as nat, |i: int| k),
                        enemies@ == prev.2 + c.enemies@.take(j as int),
                    decreases m - j,
                {
                    let e: usize = c.enemies[j];
                    proof {
                        assert(c.enemies@.take(j + 1).drop_last() =~= c.enemies@.take(j as int));
                        assert(c.enemies@.take(j + 1).last() == e);
                        lemma_contact_points_prefix(enemy_types@, c.enemies@, j + 1);
                    }
                    *score = *score + Self::get_enemy_score(enemy_types[e]);
                    bullets.push(k);
                    enemies.push(e);
                    proof {
                        assert(bullets@ =~= prev.1 + Seq::new((j + 1) as nat, |i: int| k));
                        assert(enemies@ =~= prev.2 + c.enemies@.take(j + 1));
                    }
                    j = j + 1;
                }
                proof {
                    assert(c.enemies@.take(m as int) =~= c.enemies@);
                }
            }
            k = k + 1;
        }
        (bullets, enemies)
    }

    /// Drops from `to_remove` the enemies that a shield protects, keeping the
    /// order of the others.
    pub fn retain_unshielded(to_remove: &mut Vec<usize>, shielded: &Vec<bool>)
        requires
            forall|i: int| 0 <= i < old(to_remove)@.len() ==> (#[trigger] old(to_remove)@[i]) < shielded@.len(),
        ensures
            final(to_remove)@ == unshielded(old(to_remove)@, shielded@),
    {
        let ghost s = to_remove@;
        let mut kept: Vec<usize> = Vec::new();
        let n: usize = to_remove.len();
        let mut j: usize = 0;
        while j < n
            invariant
                n == s.len(),
                to_remove@ == s,
                j <= n,
                forall|i: int| 0 <= i < s.len() ==> (#[trigger] s[i]) < shielded@.len(),
                kept@ == unshielded(s.take(j as int), shielded@),
            decreases n - j,
        {
            let e: usize = to_remove[j];
            assert(s.take(j + 1).drop_last() =~= s.take(j as int));
            if !shielded[e] {
                kept.push(e);
            }
            j = j + 1;
        }
        assert(s.take(n as int) =~= s);
        *to_remove = kept;
    }

    /// The last step of a frame's collisions: the enemies that a shield
    /// protects are spared (see `retain_unshielded`), then the bullets, enemies
    /// and mines that were hit are taken out of their lists (see
    /// `remove_indices`), each list keeping the order of the rest.
    pub fn remove_collided<B, E, M>(
        bullets: &mut Vec<B>,
        enemies: &mut Vec<E>,
        mines: &mut Vec<M>,
        bullet_hits: &Vec<usize>,
        enemy_hits: Vec<usize>,
        mine_hits: &Vec<usize>,
        shielded: &Vec<bool>,
    )
        requires
            forall|i: int| 0 <= i < bullet_hits@.len() ==> (#[trigger] bullet_hits@[i]) < old(bullets)@.len(),
            forall|i: int| 0 <= i < enemy_hits@.len() ==> (#[trigger] enemy_hits@[i]) < old(enemies)@.len(),
            forall|i: int| 0 <= i < mine_hits@.len() ==> (#[trigger] mine_hits@[i]) < old(mines)@.len(),
            shielded@.len() == old(enemies)@.len(),
        ensures
            final(bullets)@ == without_indices(old(bullets)@, bullet_hits@),
            final(enemies)@ == without_indices(old(enemies)@, unshielded(enemy_hits@, shielded@)),
            final(mines)@ == without_indices(old(mines)@, mine_hits@),
    {
        let ghost hits0 = enemy_hits@;
        let mut spared: Vec<usize> = enemy_hits;
        Self::retain_unshielded(&mut spared, shielded);
        proof {
            lemma_unshielded_bounded(hits0, shielded@, enemies@.len() as int);
        }
        remove_indices(bullets, bullet_hits);
        remove_indices(enemies, &spared);
        remove_indices(mines, mine_hits);
    }
}

} // verus!
