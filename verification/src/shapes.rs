//! The seven canonical tetromino shapes and the batch they are dealt from.
//!
//! Each shape is authored as a 4x4 mask sitting upside-down at the bottom of
//! the frame; construction normalizes it and applies a half turn, giving the
//! spawn mask. Four rotations return every spawned shape to its spawn mask.

use vstd::prelude::*;
use crate::tetromino::{
    mask_of, mask_nonempty, normalized, rotation_step, Mask, Tetromino, TetrominoView,
};

verus! {

/// The authored T mask.
pub open spec fn t_authored() -> Mask {
    seq![
        seq![false, false, false, false],
        seq![false, false, false, false],
        seq![false, true, false, false],
        seq![true, true, true, false],
    ]
}

/// The authored J mask.
pub open spec fn j_authored() -> Mask {
    seq![
        seq![false, false, false, false],
        seq![false, false, false, false],
        seq![true, false, false, false],
        seq![true, true, true, false],
    ]
}

/// The authored L mask.
pub open spec fn l_authored() -> Mask {
    seq![
        seq![false, false, false, false],
        seq![false, false, false, false],
        seq![false, false, true, false],
        seq![true, true, true, false],
    ]
}

/// The authored O mask.
pub open spec fn o_authored() -> Mask {
    seq![
        seq![false, false, false, false],
        seq![false, false, false, false],
        seq![true, true, false, false],
        seq![true, true, false, false],
    ]
}

/// The authored S mask.
pub open spec fn s_authored() -> Mask {
    seq![
        seq![false, false, false, false],
        seq![false, false, false, false],
        seq![false, true, true, false],
        seq![true, true, false, false],
    ]
}

/// The authored Z mask.
pub open spec fn z_authored() -> Mask {
    seq![
        seq![false, false, false, false],
        seq![false, false, false, false],
        seq![true, true, false, false],
        seq![false, true, true, false],
    ]
}

/// The authored I mask.
pub open spec fn i_authored() -> Mask {
    seq![
        seq![false, false, false, false],
        seq![false, false, false, false],
        seq![false, false, false, false],
        seq![true, true, true, true],
    ]
}

/// The T piece as it spawns.
pub open spec fn t_spawn() -> Mask {
    seq![
        seq![true, true, true, false],
        seq![false, true, false, false],
        seq![false, false, false, false],
        seq![false, false, false, false],
    ]
}

/// The J piece as it spawns.
pub open spec fn j_spawn() -> Mask {
    seq![
        seq![true, true, true, false],
        seq![false, false, true, false],
        seq![false, false, false, false],
        seq![false, false, false, false],
    ]
}

/// The L piece as it spawns.
pub open spec fn l_spawn() -> Mask {
    seq![
        seq![true, true, true, false],
        seq![true, false, false, false],
        seq![false, false, false, false],
        seq![false, false, false, false],
    ]
}

/// The O piece as it spawns.
pub open spec fn o_spawn() -> Mask {
    seq![
        seq![true, true, false, false],
        seq![true, true, false, false],
        seq![false, false, false, false],
        seq![false, false, false, false],
    ]
}

/// The S piece as it spawns.
pub open spec fn s_spawn() -> Mask {
    seq![
        seq![false, true, true, false],
        seq![true, true, false, false],
        seq![false, false, false, false],
        seq![false, false, false, false],
    ]
}

/// The Z piece as it spawns.
pub open spec fn z_spawn() -> Mask {
    seq![
        seq![true, true, false, false],
        seq![false, true, true, false],
        seq![false, false, false, false],
        seq![false, false, false, false],
    ]
}

/// The I piece as it spawns.
pub open spec fn i_spawn() -> Mask {
    seq![
        seq![true, true, true, true],
        seq![false, false, false, false],
        seq![false, false, false, false],
        seq![false, false, false, false],
    ]
}

/// The spawn masks of the seven canonical shapes, in the order they are authored.
pub open spec fn spawn_masks() -> Seq<Mask> {
    seq![t_spawn(), j_spawn(), l_spawn(), o_spawn(), s_spawn(), z_spawn(), i_spawn()]
}

/// The abstract pieces of a fresh batch: each spawn mask at position (0, 0).
pub open spec fn spawn_views() -> Seq<TetrominoView> {
    Seq::new(7, |i: int| TetrominoView { mask: spawn_masks()[i], row: 0, col: 0 })
}

/// Construction turns the authored T mask into its spawn mask.
proof fn lemma_t_spawn()
    ensures
        rotation_step(rotation_step(normalized(t_authored()))) == t_spawn(),
{
    assert(normalized(t_authored()) =~~= seq![
        seq![false, true, false, false],
        seq![true, true, true, false],
        seq![false, false, false, false],
        seq![false, false, false, false],
    ]);
    assert(rotation_step(normalized(t_authored())) =~~= seq![
        seq![true, false, false, false],
        seq![true, true, false, false],
        seq![true, false, false, false],
        seq![false, false, false, false],
    ]);
    assert(rotation_step(rotation_step(normalized(t_authored()))) =~~= t_spawn());
}

/// Construction turns the authored J mask into its spawn mask.
proof fn lemma_j_spawn()
    ensures
        rotation_step(rotation_step(normalized(j_authored()))) == j_spawn(),
{
    assert(normalized(j_authored()) =~~= seq![
        seq![true, false, false, false],
        seq![true, true, true, false],
        seq![false, false, false, false],
        seq![false, false, false, false],
    ]);
    assert(rotation_step(normalized(j_authored())) =~~= seq![
        seq![true, true, false, false],
        seq![true, false, false, false],
        seq![true, false, false, false],
        seq![false, false, false, false],
    ]);
    assert(rotation_step(rotation_step(normalized(j_authored()))) =~~= j_spawn());
}

/// Construction turns the authored L mask into its spawn mask.
proof fn lemma_l_spawn()
    ensures
        rotation_step(rotation_step(normalized(l_authored()))) == l_spawn(),
{
    assert(normalized(l_authored()) =~~= seq![
        seq![false, false, true, false],
        seq![true, true, true, false],
        seq![false, false, false, false],
        seq![false, false, false, false],
    ]);
    assert(rotation_step(normalized(l_authored())) =~~= seq![
        seq![true, false, false, false],
        seq![true, false, false, false],
        seq![true, true, false, false],
        seq![false, false, false, false],
    ]);
    assert(rotation_step(rotation_step(normalized(l_authored()))) =~~= l_spawn());
}

/// Construction turns the authored O mask into its spawn mask.
proof fn lemma_o_spawn()
    ensures
        rotation_step(rotation_step(normalized(o_authored()))) == o_spawn(),
{
    assert(normalized(o_authored()) =~~= o_spawn());
    assert(rotation_step(o_spawn()) =~~= o_spawn());
}

/// Construction turns the authored S mask into its spawn mask.
proof fn lemma_s_spawn()
    ensures
        rotation_step(rotation_step(normalized(s_authored()))) == s_spawn(),
{
    assert(normalized(s_authored()) =~~= s_spawn());
    assert(rotation_step(s_spawn()) =~~= seq![
        seq![true, false, false, false],
        seq![true, true, false, false],
        seq![false, true, false, false],
        seq![false, false, false, false],
    ]);
    assert(rotation_step(rotation_step(s_spawn())) =~~= s_spawn());
}

/// Construction turns the authored Z mask into its spawn mask.
proof fn lemma_z_spawn()
    ensures
        rotation_step(rotation_step(normalized(z_authored()))) == z_spawn(),
{
    assert(normalized(z_authored()) =~~= z_spawn());
    assert(rotation_step(z_spawn()) =~~= seq![
        seq![false, true, false, false],
        seq![true, true, false, false],
        seq![true, false, false, false],
        seq![false, false, false, false],
    ]);
    assert(rotation_step(rotation_step(z_spawn())) =~~= z_spawn());
}

/// Construction turns the authored I mask into its spawn mask.
proof fn lemma_i_spawn()
    ensures
        rotation_step(rotation_step(normalized(i_authored()))) == i_spawn(),
{
    assert(normalized(i_authored()) =~~= i_spawn());
    assert(rotation_step(i_spawn()) =~~= seq![
        seq![true, false, false, false],
        seq![true, false, false, false],
        seq![true, false, false, false],
        seq![true, false, false, false],
    ]);
    assert(rotation_step(rotation_step(i_spawn())) =~~= i_spawn());
}

/// Four rotations return the T piece to its spawn mask.
proof fn lemma_t_cycle()
    ensures
        rotation_step(rotation_step(rotation_step(rotation_step(t_spawn())))) == t_spawn(),
{
    let m1 = seq![
        seq![false, true, false, false],
        seq![true, true, false, false],
        seq![false, true, false, false],
        seq![false, false, false, false],
    ];
    let m2 = seq![
        seq![false, true, false, false],
        seq![true, true, true, false],
        seq![false, false, false, false],
        seq![false, false, false, false],
    ];
    let m3 = seq![
        seq![true, false, false, false],
        seq![true, true, false, false],
        seq![true, false, false, false],
        seq![false, false, false, false],
    ];
    assert(rotation_step(t_spawn()) =~~= m1);
    assert(rotation_step(m1) =~~= m2);
    assert(rotation_step(m2) =~~= m3);
    assert(rotation_step(m3) =~~= t_spawn());
}

/// Four rotations return the J piece to its spawn mask.
proof fn lemma_j_cycle()
    ensures
        rotation_step(rotation_step(rotation_step(rotation_step(j_spawn())))) == j_spawn(),
{
    let m1 = seq![
        seq![false, true, false, false],
        seq![false, true, false, false],
        seq![true, true, false, false],
        seq![false, false, false, false],
    ];
    let m2 = seq![
        seq![true, false, false, false],
        seq![true, true, true, false],
        seq![false, false, false, false],
        seq![false, false, false, false],
    ];
    let m3 = seq![
        seq![true, true, false, false],
        seq![true, false, false, false],
        seq![true, false, false, false],
        seq![false, false, false, false],
    ];
    assert(rotation_step(j_spawn()) =~~= m1);
    assert(rotation_step(m1) =~~= m2);
    assert(rotation_step(m2) =~~= m3);
    assert(rotation_step(m3) =~~= j_spawn());
}

/// Four rotations return the L piece to its spawn mask.
proof fn lemma_l_cycle()
    ensures
        rotation_step(rotation_step(rotation_step(rotation_step(l_spawn())))) == l_spawn(),
{
    let m1 = seq![
        seq![true, true, false, false],
        seq![false, true, false, false],
        seq![false, true, false, false],
        seq![false, false, false, false],
    ];
    let m2 = seq![
        seq![false, false, true, false],
        seq![true, true, true, false],
        seq![false, false, false, false],
        seq![false, false, false, false],
    ];
    let m3 = seq![
        seq![true, false, false, false],
        seq![true, false, false, false],
        seq![true, true, false, false],
        seq![false, false, false, false],
    ];
    assert(rotation_step(l_spawn()) =~~= m1);
    assert(rotation_step(m1) =~~= m2);
    assert(rotation_step(m2) =~~= m3);
    assert(rotation_step(m3) =~~= l_spawn());
}

/// Four rotations return the O piece to its spawn mask.
proof fn lemma_o_cycle()
    ensures
        rotation_step(rotation_step(rotation_step(rotation_step(o_spawn())))) == o_spawn(),
{
    assert(rotation_step(o_spawn()) =~~= o_spawn());
}

/// Four rotations return the S piece to its spawn mask.
proof fn lemma_s_cycle()
    ensures
        rotation_step(rotation_step(rotation_step(rotation_step(s_spawn())))) == s_spawn(),
{
    let m1 = seq![
        seq![true, false, false, false],
        seq![true, true, false, false],
        seq![false, true, false, false],
        seq![false, false, false, false],
    ];
    assert(rotation_step(s_spawn()) =~~= m1);
    assert(rotation_step(m1) =~~= s_spawn());
}

/// Four rotations return the Z piece to its spawn mask.
proof fn lemma_z_cycle()
    ensures
        rotation_step(rotation_step(rotation_step(rotation_step(z_spawn())))) == z_spawn(),
{
    let m1 = seq![
        seq![false, true, false, false],
        seq![true, true, false, false],
        seq![true, false, false, false],
        seq![false, false, false, false],
    ];
    assert(rotation_step(z_spawn()) =~~= m1);
    assert(rotation_step(m1) =~~= z_spawn());
}

/// Four rotations return the I piece to its spawn mask.
proof fn lemma_i_cycle()
    ensures
        rotation_step(rotation_step(rotation_step(rotation_step(i_spawn())))) == i_spawn(),
{
    let m1 = seq![
        seq![true, false, false, false],
        seq![true, false, false, false],
        seq![true, false, false, false],
        seq![true, false, false, false],
    ];
    assert(rotation_step(i_spawn()) =~~= m1);
    assert(rotation_step(m1) =~~= i_spawn());
}

/// Rotation is periodic with period four: four rotations return the mask of
/// any freshly spawned canonical shape to its spawn form.
pub proof fn lemma_rotation_period_four(m: Mask)
    requires
        spawn_masks().contains(m),
    ensures
        rotation_step(rotation_step(rotation_step(rotation_step(m)))) == m,
{
    let i = choose|i: int| 0 <= i < spawn_masks().len() && spawn_masks()[i] == m;
    if i == 0 {
        lemma_t_cycle();
    } else if i == 1 {
        lemma_j_cycle();
    } else if i == 2 {
        lemma_l_cycle();
    } else if i == 3 {
        lemma_o_cycle();
    } else if i == 4 {
        lemma_s_cycle();
    } else if i == 5 {
        lemma_z_cycle();
    } else {
        lemma_i_cycle();
    }
}

/// The abstract pieces of a batch, in bag order.
pub open spec fn views_of(s: Seq<Tetromino>) -> Seq<TetrominoView> {
    s.map_values(|p: Tetromino| p@)
}

/// Build one full batch of the seven canonical pieces, in authored order.
pub fn generate_batch() -> (batch: Vec<Tetromino>)
    ensures
        batch@.len() == 7,
        forall|i: int| 0 <= i < 7 ==> (#[trigger] batch@[i]).wf(),
        views_of(batch@) == spawn_views(),
{
    let f = false;
    let t = true;
    let mut batch: Vec<Tetromino> = Vec::new();

    let a0 = [[f, f, f, f], [f, f, f, f], [f, t, f, f], [t, t, t, f]];
    let p0 = Tetromino::new(a0);
    proof {
        assert(mask_of(a0) =~~= t_authored());
        lemma_t_spawn();
    }
    batch.push(p0);

    let a1 = [[f, f, f, f], [f, f, f, f], [t, f, f, f], [t, t, t, f]];
    let p1 = Tetromino::new(a1);
    proof {
        assert(mask_of(a1) =~~= j_authored());
        lemma_j_spawn();
    }
    batch.push(p1);

    let a2 = [[f, f, f, f], [f, f, f, f], [f, f, t, f], [t, t, t, f]];
    let p2 = Tetromino::new(a2);
    proof {
        assert(mask_of(a2) =~~= l_authored());
        lemma_l_spawn();
    }
    batch.push(p2);

    let a3 = [[f, f, f, f], [f, f, f, f], [t, t, f, f], [t, t, f, f]];
    let p3 = Tetromino::new(a3);
    proof {
        assert(mask_of(a3) =~~= o_authored());
        lemma_o_spawn();
    }
    batch.push(p3);

    let a4 = [[f, f, f, f], [f, f, f, f], [f, t, t, f], [t, t, f, f]];
    let p4 = Tetromino::new(a4);
    proof {
        assert(mask_of(a4) =~~= s_authored());
        lemma_s_spawn();
    }
    batch.push(p4);

    let a5 = [[f, f, f, f], [f, f, f, f], [t, t, f, f], [f, t, t, f]];
    let p5 = Tetromino::new(a5);
    proof {
        assert(mask_of(a5) =~~= z_authored());
        lemma_z_spawn();
    }
    batch.push(p5);

    let a6 = [[f, f, f, f], [f, f, f, f], [f, f, f, f], [t, t, t, t]];
    let p6 = Tetromino::new(a6);
    proof {
        assert(mask_of(a6) =~~= i_authored());
        lemma_i_spawn();
    }
    batch.push(p6);

    proof {
        assert(views_of(batch@) =~~= spawn_views());
    }
    batch
}

} // verus!
