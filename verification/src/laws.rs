//! Laws of the write path and of the rotation cascade, proved over the
//! abstract file-set image that `RotatingWriter::write` and
//! `LogFileSet::rotate` are specified against.

use vstd::prelude::*;
use crate::fileset::FileSetView;
use crate::fileset::byte_size;
use crate::fileset::rotate_v;
use crate::fileset::write_v;
use crate::writer::RotateOp;
use crate::writer::cascade_ops;

verus! {

/// The concatenation, in order, of a sequence of (newline-terminated) lines.
pub open spec fn concat_lines(lines: Seq<Seq<char>>) -> Seq<char>
    decreases lines.len(),
{
    if lines.len() == 0 {
        Seq::empty()
    } else {
        concat_lines(lines.drop_last()) + lines.last()
    }
}

/// The file set after a sequence of accepted writes, each carrying one
/// rendered line.
pub open spec fn write_seq_v(
    v: FileSetView,
    lines: Seq<Seq<char>>,
    marker: Seq<char>,
    max_size: nat,
    max_files: nat,
) -> FileSetView
    decreases lines.len(),
{
    if lines.len() == 0 {
        v
    } else {
        write_v(
            write_seq_v(v, lines.drop_last(), marker, max_size, max_files),
            lines.last(),
            marker,
            max_size,
            max_files,
        )
    }
}

/// While the active file stays below `max_size` bytes, a sequence of
/// accepted writes appends exactly one line per write, in order, and touches
/// no archive: the active file ends up holding its prior content followed by
/// the lines' concatenation.
pub proof fn lemma_writes_in_order(
    v: FileSetView,
    lines: Seq<Seq<char>>,
    marker: Seq<char>,
    max_size: nat,
    max_files: nat,
)
    requires
        forall|i: int|
            0 <= i < lines.len() ==> byte_size(
                (#[trigger] write_seq_v(v, lines.take(i), marker, max_size, max_files)).active,
            ) < max_size,
    ensures
        write_seq_v(v, lines, marker, max_size, max_files).active == v.active + concat_lines(
            lines,
        ),
        write_seq_v(v, lines, marker, max_size, max_files).archives == v.archives,
    decreases lines.len(),
{
    if lines.len() == 0 {
        assert(write_seq_v(v, lines, marker, max_size, max_files).active =~= v.active
            + concat_lines(lines));
    } else {
        let prefix = lines.drop_last();
        assert(prefix =~= lines.take(lines.len() - 1));
        assert forall|i: int| 0 <= i < prefix.len() implies byte_size(
            (#[trigger] write_seq_v(v, prefix.take(i), marker, max_size, max_files)).active,
        ) < max_size by {
            assert(prefix.take(i) =~= lines.take(i));
            assert(byte_size(
                write_seq_v(v, lines.take(i), marker, max_size, max_files).active,
            ) < max_size);
        }
        lemma_writes_in_order(v, prefix, marker, max_size, max_files);
        let before_last = write_seq_v(v, prefix, marker, max_size, max_files);
        assert(byte_size(
            write_seq_v(
                v,
                lines.take(lines.len() - 1),
                marker,
                max_size,
                max_files,
            ).active,
        ) < max_size);
        assert(byte_size(before_last.active) < max_size);
        assert(write_seq_v(v, lines, marker, max_size, max_files).active =~= v.active
            + concat_lines(lines));
    }
}

/// The file set after `contents.len()` rotations from a fresh state, the
/// `j`-th rotation demoting an active file that holds `contents[j]`.
pub open spec fn rotate_many_v(contents: Seq<Seq<char>>, max_files: nat) -> FileSetView
    decreases contents.len(),
{
    if contents.len() == 0 {
        FileSetView::fresh()
    } else {
        let prev = rotate_many_v(contents.drop_last(), max_files);
        rotate_v(FileSetView { active: contents.last(), archives: prev.archives }, max_files)
    }
}

/// After `k` rotations from a fresh state exactly `min(k, max_files)`
/// archives exist: the newest `max_files` of the demoted contents, newest
/// first. In particular, after exactly `max_files` rotations every archive
/// index is occupied, and one further rotation evicts the oldest content
/// while each remaining archive takes the content its predecessor held.
pub proof fn lemma_rotation_cascade(contents: Seq<Seq<char>>, max_files: nat)
    ensures
        rotate_many_v(contents, max_files).active == Seq::<char>::empty(),
        rotate_many_v(contents, max_files).archives.len() == vstd::math::min(
            contents.len() as int,
            max_files as int,
        ),
        forall|i: int|
            0 <= i < rotate_many_v(contents, max_files).archives.len()
                ==> #[trigger] rotate_many_v(contents, max_files).archives[i] == contents[
                contents.len() - 1 - i
            ],
    decreases contents.len(),
{
    if contents.len() == 0 {
    } else {
        let prefix = contents.drop_last();
        lemma_rotation_cascade(prefix, max_files);
        let prev = rotate_many_v(prefix, max_files);
        let cur = rotate_many_v(contents, max_files);
        if max_files == 0 {
        } else {
            assert(cur.archives =~= (seq![contents.last()] + prev.archives).take(
                vstd::math::min(prev.archives.len() as int + 1, max_files as int),
            ));
            assert forall|i: int| 0 <= i < cur.archives.len() implies #[trigger] cur.archives[i]
                == contents[contents.len() - 1 - i] by {
                if i == 0 {
                    assert(cur.archives[0] == contents.last());
                } else {
                    assert(cur.archives[i] == prev.archives[i - 1]);
                    assert(prev.archives[i - 1] == prefix[prefix.len() - 1 - (i - 1)]);
                    assert(prefix[prefix.len() - 1 - (i - 1)] == contents[contents.len() - 1 - i]);
                }
            }
        }
    }
}

/// A directory as the cascade's operations see it: index 0 holds the active
/// file's content, index `i >= 1` the content of `basename.i`, and `None`
/// marks an absent file.
pub open spec fn disk_of(v: FileSetView, max_files: nat) -> Seq<Option<Seq<char>>> {
    Seq::new(
        max_files + 1,
        |i: int|
            if i == 0 {
                Some(v.active)
            } else if i - 1 < v.archives.len() {
                Some(v.archives[i - 1])
            } else {
                None
            },
    )
}

/// What one cascade operation does to a directory: a removal leaves the
/// file absent; a rename moves an existing file onto its target, replacing
/// whatever was there, and does nothing when the source is absent.
pub open spec fn apply_op(d: Seq<Option<Seq<char>>>, op: RotateOp) -> Seq<Option<Seq<char>>> {
    match op {
        RotateOp::Remove { index } => {
            if index < d.len() {
                d.update(index as int, None)
            } else {
                d
            }
        },
        RotateOp::Rename { from, to } => {
            if from < d.len() && to < d.len() && d[from as int] is Some {
                d.update(to as int, d[from as int]).update(from as int, None)
            } else {
                d
            }
        },
    }
}

/// A sequence of cascade operations, applied in order.
pub open spec fn apply_ops(d: Seq<Option<Seq<char>>>, ops: Seq<RotateOp>) -> Seq<
    Option<Seq<char>>,
>
    decreases ops.len(),
{
    if ops.len() == 0 {
        d
    } else {
        apply_ops(apply_op(d, ops[0]), ops.drop_first())
    }
}

/// The shifts of the cascade's middle: `j` renames, moving index `j` onto
/// `j + 1` first and index 1 onto 2 last.
pub open spec fn shift_ops(j: usize) -> Seq<RotateOp> {
    Seq::new(
        j as nat,
        |k: int| (RotateOp::Rename { from: (j - k) as usize, to: (j - k + 1) as usize }),
    )
}

proof fn lemma_apply_ops_single(d: Seq<Option<Seq<char>>>, op: RotateOp)
    ensures
        apply_ops(d, seq![op]) == apply_op(d, op),
{
    assert(seq![op][0] == op);
    assert(seq![op].drop_first() =~= Seq::<RotateOp>::empty());
    assert(apply_ops(apply_op(d, op), Seq::<RotateOp>::empty()) == apply_op(d, op));
}

proof fn lemma_apply_ops_concat(d: Seq<Option<Seq<char>>>, a: Seq<RotateOp>, b: Seq<RotateOp>)
    ensures
        apply_ops(d, a + b) == apply_ops(apply_ops(d, a), b),
    decreases a.len(),
{
    if a.len() == 0 {
        assert(a + b =~= b);
    } else {
        assert((a + b)[0] == a[0]);
        assert((a + b).drop_first() =~= a.drop_first() + b);
        lemma_apply_ops_concat(apply_op(d, a[0]), a.drop_first(), b);
    }
}

proof fn lemma_shift_segment(d: Seq<Option<Seq<char>>>, j: usize)
    requires
        1 <= j < usize::MAX,
        j + 2 <= d.len(),
    ensures
        apply_ops(d, shift_ops(j)).len() == d.len(),
        apply_ops(d, shift_ops(j))[0] == d[0],
        apply_ops(d, shift_ops(j))[1] == None::<Seq<char>>,
        forall|i: int|
            2 <= i <= j ==> apply_ops(d, shift_ops(j))[i] == (if d[i - 1] is Some {
                d[i - 1]
            } else {
                None
            }),
        apply_ops(d, shift_ops(j))[j + 1] == (if d[j as int] is Some {
            d[j as int]
        } else {
            d[j + 1]
        }),
        forall|i: int| j + 1 < i < d.len() ==> apply_ops(d, shift_ops(j))[i] == d[i],
    decreases j,
{
    let first = RotateOp::Rename { from: j, to: (j + 1) as usize };
    assert(shift_ops(j)[0] == first);
    let d1 = apply_op(d, first);
    let r = apply_ops(d, shift_ops(j));
    if j == 1 {
        assert(shift_ops(j) =~= seq![first]);
        lemma_apply_ops_single(d, first);
    } else {
        assert(shift_ops(j).drop_first() =~= shift_ops((j - 1) as usize));
        assert(r == apply_ops(d1, shift_ops((j - 1) as usize)));
        lemma_shift_segment(d1, (j - 1) as usize);
        assert(d1[0] == d[0]);
        assert forall|i: int| 2 <= i <= j implies r[i] == (if d[i - 1] is Some {
            d[i - 1]
        } else {
            None
        }) by {
            if i < j {
                assert(d1[i - 1] == d[i - 1]);
                assert(r[i] == (if d1[i - 1] is Some {
                    d1[i - 1]
                } else {
                    None::<Seq<char>>
                }));
            } else {
                assert(d1[j - 1] == d[j - 1]);
                assert(r[j as int] == (if d1[j - 1] is Some {
                    d1[j - 1]
                } else {
                    d1[j as int]
                }));
                if !(d[j - 1] is Some) {
                    assert(d1[j as int] == None::<Seq<char>>);
                }
            }
        }
        assert(d1[j + 1] == (if d[j as int] is Some {
            d[j as int]
        } else {
            d[j + 1]
        }));
        assert(r[j + 1] == d1[j + 1]);
        assert forall|i: int| j + 1 < i < d.len() implies r[i] == d[i] by {
            assert(apply_ops(d1, shift_ops((j - 1) as usize))[i] == d1[i]);
            assert(d1[i] == d[i]);
        }
    }
}

/// Running the planned cascade on a directory whose archives are the
/// image's, gap-free, leaves exactly the rotated image's archives on disk,
/// with the active file absent until it is reopened: the operation order of
/// the cascade implements the model transition.
pub proof fn lemma_cascade_ops_match_the_image(v: FileSetView, max_files: usize)
    requires
        v.archives.len() <= max_files,
    ensures
        apply_ops(disk_of(v, max_files as nat), cascade_ops(max_files)) == disk_of(
            rotate_v(v, max_files as nat),
            max_files as nat,
        ).update(0, None::<Seq<char>>),
{
    let d0 = disk_of(v, max_files as nat);
    let rotated = disk_of(rotate_v(v, max_files as nat), max_files as nat).update(
        0,
        None::<Seq<char>>,
    );
    if max_files == 0 {
        assert(cascade_ops(max_files) =~= seq![(RotateOp::Remove { index: 0 })]);
        lemma_apply_ops_single(d0, RotateOp::Remove { index: 0 });
        assert(apply_ops(d0, cascade_ops(max_files)) =~= rotated);
    } else {
        let evict = RotateOp::Remove { index: max_files };
        let last = RotateOp::Rename { from: 0, to: 1 };
        let d1 = apply_op(d0, evict);
        if max_files == 1 {
            assert(cascade_ops(max_files) =~= seq![evict] + (seq![last]));
            lemma_apply_ops_concat(d0, seq![evict], seq![last]);
            lemma_apply_ops_single(d0, evict);
            lemma_apply_ops_single(d1, last);
            assert(apply_ops(d0, cascade_ops(max_files)) == apply_op(d1, last));
            assert(d1[0] == Some(v.active));
            let result = apply_op(d1, last);
            assert(result == d1.update(1, d1[0]).update(0, None::<Seq<char>>));
            assert((seq![v.active] + v.archives).take(1)[0] == v.active);
            assert(result =~= rotated);
        } else {
            let shifts = shift_ops((max_files - 1) as usize);
            assert(cascade_ops(max_files) =~= (seq![evict] + shifts) + (seq![last]));
            lemma_apply_ops_concat(d0, seq![evict] + shifts, seq![last]);
            lemma_apply_ops_concat(d0, seq![evict], shifts);
            lemma_apply_ops_single(d0, evict);
            lemma_shift_segment(d1, (max_files - 1) as usize);
            let d2 = apply_ops(d1, shifts);
            lemma_apply_ops_single(d2, last);
            assert(apply_ops(d0, (seq![evict] + shifts) + (seq![last])) == apply_op(d2, last));
            assert(apply_op(d2, last) =~= rotated);
        }
    }
}

} // verus!
