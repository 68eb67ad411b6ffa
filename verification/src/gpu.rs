//! The ledger and submission facade.
//!
//! `Gpu` owns an ordered mapping from [`CommandListIndex`] values to finished
//! command buffers.  `submit_cmds` tags each incoming buffer with a freshly
//! generated index and files it; `present` drains the whole ledger in
//! ascending key order so the caller can hand the batch to the device queue,
//! or leaves the ledger untouched when surface acquisition failed.

use vstd::prelude::*;

verus! {

use vstd::pervasive::VecAdditionalExecFns;

use crate::api::CommandListIndex;

/// Why acquiring (or presenting) the surface failed.
#[derive(Clone, Copy, Debug, PartialEq, Eq, Structural)]
pub enum SurfaceErrorKind {
    /// The surface was lost and must be reconfigured.
    Lost,
    /// The surface configuration no longer matches the window.
    Outdated,
    /// Acquiring the next texture timed out.
    Timeout,
    /// The device is out of memory.
    OutOfMemory,
}

/// A frame could not be presented.
#[derive(Clone, Copy, Debug, PartialEq, Eq, Structural)]
pub enum RenderError {
    /// Surface acquisition or presentation failed; the caller reconfigures
    /// the surface and retries the frame.
    SurfaceError(SurfaceErrorKind),
}

/// A texture could not be created from the supplied bytes.
#[derive(Clone, Copy, Debug, PartialEq, Eq, Structural)]
pub enum TextureError {
    /// The image bytes could not be decoded.
    MalformedData,
    /// The image format is not supported.
    UnsupportedFormat,
}

/// An operation of the facade failed.
#[derive(Clone, Copy, Debug, PartialEq, Eq, Structural)]
pub enum GpuError {
    /// Texture creation failed, wrapping the underlying texture error.
    TextureError(TextureError),
}

/// Raw RGBA8 texture bytes are well-formed exactly when both dimensions are
/// positive and there are four bytes per texel.
pub open spec fn texture_bytes_ok(width: u32, height: u32, len: int) -> bool {
    width > 0 && height > 0 && len == 4 * width * height
}

/// Validates raw RGBA8 texture bytes against the claimed dimensions, ahead
/// of handing them to the backend: accepted exactly when the byte count is
/// four per texel of a non-empty image, and rejected as malformed otherwise.
pub fn check_texture_desc(width: u32, height: u32, data: &Vec<u8>) -> (r: Result<(), GpuError>)
    ensures
        r is Ok <==> texture_bytes_ok(width, height, data@.len() as int),
        r is Err ==> r == Err::<(), GpuError>(GpuError::TextureError(TextureError::MalformedData)),
{
    proof {
        assert((4 * (width as int)) * (height as int) < 0x80000000000000000000000000000000int)
            by (nonlinear_arith)
            requires
                width <= 0xffff_ffffu32,
                height <= 0xffff_ffffu32,
        ;
    }
    let expected: u128 = 4u128 * (width as u128) * (height as u128);
    if width > 0 && height > 0 && data.len() as u128 == expected {
        Ok(())
    } else {
        Err(GpuError::TextureError(TextureError::MalformedData))
    }
}

/// Keys strictly ascend along the sequence.
pub open spec fn sorted_strict<B>(s: Seq<(u128, B)>) -> bool {
    forall|i: int, j: int| 0 <= i < j < s.len() ==> s[i].0 < s[j].0
}

/// Some entry of `s` carries the key `k`.
pub open spec fn has_key<B>(s: Seq<(u128, B)>, k: u128) -> bool {
    exists|i: int| 0 <= i < s.len() && #[trigger] s[i].0 == k
}

/// Where an entry lands in a ledger ordered by ascending key: entries with
/// smaller keys stay in front, an entry carrying the same key is replaced,
/// and everything larger moves one place back.
pub open spec fn ledger_insert<B>(s: Seq<(u128, B)>, k: u128, v: B) -> Seq<(u128, B)>
    decreases s.len(),
{
    if s.len() == 0 {
        seq![(k, v)]
    } else if s[0].0 < k {
        seq![s[0]] + ledger_insert(s.drop_first(), k, v)
    } else if s[0].0 == k {
        seq![(k, v)] + s.drop_first()
    } else {
        seq![(k, v)] + s
    }
}

/// `ledger_insert` at the position the scan finds: replacing in place when
/// the key is already there, inserting before the first larger key otherwise.
proof fn lemma_ledger_insert_at<B>(s: Seq<(u128, B)>, k: u128, v: B, i: int)
    requires
        0 <= i <= s.len(),
        forall|j: int| 0 <= j < i ==> s[j].0 < k,
        i < s.len() ==> s[i].0 >= k,
    ensures
        i < s.len() && s[i].0 == k ==> ledger_insert(s, k, v) == s.update(i, (k, v)),
        (i == s.len() || s[i].0 > k) ==> ledger_insert(s, k, v) == s.insert(i, (k, v)),
    decreases s.len(),
{
    if s.len() == 0 {
        assert(ledger_insert(s, k, v) =~= s.insert(0, (k, v)));
    } else if s[0].0 < k {
        lemma_ledger_insert_at(s.drop_first(), k, v, i - 1);
        if i < s.len() && s[i].0 == k {
            assert(s.drop_first()[i - 1].0 == k);
            assert(ledger_insert(s, k, v) =~= s.update(i, (k, v)));
        } else {
            assert(ledger_insert(s, k, v) =~= s.insert(i, (k, v)));
        }
    } else {
        if s[0].0 == k {
            assert(ledger_insert(s, k, v) =~= s.update(0, (k, v)));
        } else {
            assert(ledger_insert(s, k, v) =~= s.insert(0, (k, v)));
        }
    }
}

/// The ledger after filing each value of `vs`, in order, under the
/// corresponding key of `ks`.
pub open spec fn ledger_insert_all<B>(s: Seq<(u128, B)>, ks: Seq<u128>, vs: Seq<B>) -> Seq<
    (u128, B),
>
    recommends
        ks.len() == vs.len(),
    decreases vs.len(),
{
    if vs.len() == 0 {
        s
    } else {
        ledger_insert_all(ledger_insert(s, ks[0], vs[0]), ks.drop_first(), vs.drop_first())
    }
}

/// Filing one more value on top of a batch is the batch extended by one.
proof fn lemma_ledger_insert_all_snoc<B>(
    s: Seq<(u128, B)>,
    ks: Seq<u128>,
    vs: Seq<B>,
    k: u128,
    v: B,
)
    requires
        ks.len() == vs.len(),
    ensures
        ledger_insert_all(s, ks.push(k), vs.push(v)) == ledger_insert(
            ledger_insert_all(s, ks, vs),
            k,
            v,
        ),
    decreases vs.len(),
{
    if vs.len() == 0 {
        assert(ks.push(k).drop_first() =~= ks);
        assert(vs.push(v).drop_first() =~= vs);
        assert(ks.push(k)[0] == k && vs.push(v)[0] == v);
        assert(ledger_insert_all(s, ks.push(k), vs.push(v)) == ledger_insert_all(
            ledger_insert(s, k, v),
            ks,
            vs,
        ));
        assert(ledger_insert_all(ledger_insert(s, k, v), ks, vs) == ledger_insert(s, k, v));
        assert(ledger_insert_all(s, ks, vs) == s);
    } else {
        assert(ks.push(k)[0] == ks[0]);
        assert(vs.push(v)[0] == vs[0]);
        assert(ks.push(k).drop_first() =~= ks.drop_first().push(k));
        assert(vs.push(v).drop_first() =~= vs.drop_first().push(v));
        lemma_ledger_insert_all_snoc(
            ledger_insert(s, ks[0], vs[0]),
            ks.drop_first(),
            vs.drop_first(),
            k,
            v,
        );
        assert(ledger_insert_all(s, ks.push(k), vs.push(v)) == ledger_insert_all(
            ledger_insert(s, ks[0], vs[0]),
            ks.drop_first().push(k),
            vs.drop_first().push(v),
        ));
        assert(ledger_insert_all(s, ks, vs) == ledger_insert_all(
            ledger_insert(s, ks[0], vs[0]),
            ks.drop_first(),
            vs.drop_first(),
        ));
    }
}

/// Filing a buffer never disturbs the order: a ledger whose keys strictly
/// ascend still ascends strictly after `ledger_insert`, whatever key arrives
/// and in whatever order earlier keys arrived.
pub proof fn lemma_ledger_insert_sorted<B>(s: Seq<(u128, B)>, k: u128, v: B)
    requires
        sorted_strict(s),
    ensures
        sorted_strict(ledger_insert(s, k, v)),
        s.len() <= ledger_insert(s, k, v).len() <= s.len() + 1,
        has_key(ledger_insert(s, k, v), k),
        forall|k2: u128| has_key(s, k2) ==> has_key(ledger_insert(s, k, v), k2),
        forall|t: int|
            0 <= t < ledger_insert(s, k, v).len() ==> (#[trigger] ledger_insert(s, k, v)[t].0 == k
                || has_key(s, ledger_insert(s, k, v)[t].0)),
    decreases s.len(),
{
    if s.len() == 0 {
        assert(ledger_insert(s, k, v)[0].0 == k);
    } else if s[0].0 < k {
        assert(sorted_strict(s.drop_first()));
        lemma_ledger_insert_sorted(s.drop_first(), k, v);
        let r = ledger_insert(s, k, v);
        let rt = ledger_insert(s.drop_first(), k, v);
        assert forall|t: int| 0 <= t < r.len() implies (#[trigger] r[t].0 == k || has_key(
            s,
            r[t].0,
        )) by {
            if t == 0 {
                assert(s[0].0 == r[0].0);
            } else {
                assert(r[t] == rt[t - 1]);
                if rt[t - 1].0 != k {
                    let w = choose|u: int|
                        0 <= u < s.drop_first().len() && #[trigger] s.drop_first()[u].0 == rt[t
                            - 1].0;
                    assert(s[w + 1].0 == rt[t - 1].0);
                }
            }
        }
        assert forall|i: int, j: int| 0 <= i < j < r.len() implies r[i].0 < r[j].0 by {
            if i > 0 {
                assert(r[i] == rt[i - 1] && r[j] == rt[j - 1]);
            } else {
                assert(r[j] == rt[j - 1]);
                if rt[j - 1].0 != k {
                    let w = choose|u: int|
                        0 <= u < s.drop_first().len() && #[trigger] s.drop_first()[u].0 == rt[j
                            - 1].0;
                    assert(s[w + 1].0 == rt[j - 1].0);
                    assert(s[0].0 < s[w + 1].0);
                }
            }
        }
        assert forall|k2: u128| has_key(s, k2) implies has_key(r, k2) by {
            let w = choose|i: int| 0 <= i < s.len() && #[trigger] s[i].0 == k2;
            if w == 0 {
                assert(r[0].0 == k2);
            } else {
                assert(s.drop_first()[w - 1].0 == k2);
                assert(has_key(s.drop_first(), k2));
                let u = choose|i: int|
                    0 <= i < rt.len() && #[trigger] rt[i].0 == k2;
                assert(r[u + 1].0 == k2);
            }
        }
        assert(has_key(r, k)) by {
            let u = choose|i: int| 0 <= i < rt.len() && #[trigger] rt[i].0 == k;
            assert(r[u + 1].0 == k);
        }
    } else {
        let r = ledger_insert(s, k, v);
        assert(r[0].0 == k);
        assert forall|t: int| 0 <= t < r.len() implies (#[trigger] r[t].0 == k || has_key(
            s,
            r[t].0,
        )) by {
            if t > 0 {
                if s[0].0 == k {
                    assert(s[t].0 == r[t].0);
                } else {
                    assert(s[t - 1].0 == r[t].0);
                }
            }
        }
        assert forall|k2: u128| has_key(s, k2) implies has_key(r, k2) by {
            let w = choose|i: int| 0 <= i < s.len() && #[trigger] s[i].0 == k2;
            if s[0].0 == k {
                if w == 0 {
                    assert(r[0].0 == k2);
                } else {
                    assert(r[w].0 == k2);
                }
            } else {
                assert(r[w + 1].0 == k2);
            }
        }
    }
}

/// A whole batch of filings keeps the ledger sorted: whatever keys a
/// submission generates, and in whatever order they land, the drained
/// sequence still ascends strictly.
pub proof fn lemma_ledger_insert_all_sorted<B>(s: Seq<(u128, B)>, ks: Seq<u128>, vs: Seq<B>)
    requires
        sorted_strict(s),
        ks.len() == vs.len(),
    ensures
        sorted_strict(ledger_insert_all(s, ks, vs)),
    decreases vs.len(),
{
    if vs.len() > 0 {
        lemma_ledger_insert_sorted(s, ks[0], vs[0]);
        lemma_ledger_insert_all_sorted(
            ledger_insert(s, ks[0], vs[0]),
            ks.drop_first(),
            vs.drop_first(),
        );
    }
}

/// Every entry that `ledger_insert` hands back was in the ledger before or is
/// the newly filed pair: draining after a submission yields no fabricated
/// buffer.
pub proof fn lemma_ledger_insert_entries<B>(s: Seq<(u128, B)>, k: u128, v: B)
    ensures
        forall|t: int|
            0 <= t < ledger_insert(s, k, v).len() ==> (#[trigger] ledger_insert(s, k, v)[t] == (
            k,
            v,
            ) || s.contains(ledger_insert(s, k, v)[t])),
    decreases s.len(),
{
    if s.len() == 0 {
    } else if s[0].0 < k {
        lemma_ledger_insert_entries(s.drop_first(), k, v);
        let r = ledger_insert(s, k, v);
        let rt = ledger_insert(s.drop_first(), k, v);
        assert forall|t: int| 0 <= t < r.len() implies (#[trigger] r[t] == (k, v) || s.contains(
            r[t],
        )) by {
            if t == 0 {
                assert(s[0] == r[0]);
            } else {
                assert(r[t] == rt[t - 1]);
                if rt[t - 1] != (k, v) {
                    let w = choose|u: int|
                        0 <= u < s.drop_first().len() && s.drop_first()[u] == rt[t - 1];
                    assert(s[w + 1] == rt[t - 1]);
                }
            }
        }
    } else {
        let r = ledger_insert(s, k, v);
        assert forall|t: int| 0 <= t < r.len() implies (#[trigger] r[t] == (k, v) || s.contains(
            r[t],
        )) by {
            if t > 0 {
                if s[0].0 == k {
                    assert(s[t] == r[t]);
                } else {
                    assert(s[t - 1] == r[t]);
                }
            }
        }
    }
}

/// The ledger and submission facade over an opaque command-buffer type `B`.
///
/// Owned by one facade object; `present` must not run concurrently with
/// itself, and a drain is a snapshot: buffers submitted while a drain runs
/// are seen by the next `present`.
pub struct Gpu<B> {
    node_id: [u8; 6],
    commands: Vec<(CommandListIndex, B)>,
}

impl<B> Gpu<B> {
    /// The ledger as a sequence of (key, buffer) entries in storage order.
    pub closed spec fn entries(self) -> Seq<(u128, B)> {
        self.commands@.map_values(|e: (CommandListIndex, B)| (e.0.value(), e.1))
    }

    /// The node identity the facade generates indices with.
    pub closed spec fn spec_node_id(self) -> Seq<u8> {
        self.node_id@
    }

    /// The ledger's keys strictly ascend in storage order.
    pub open spec fn wf(self) -> bool {
        sorted_strict(self.entries())
    }

    /// Some ledger entry carries the key `k`.
    pub open spec fn contains_key(self, k: u128) -> bool {
        has_key(self.entries(), k)
    }

    /// The buffers in ledger order, keys stripped.
    pub open spec fn buffers(self) -> Seq<B> {
        self.entries().map_values(|e: (u128, B)| e.1)
    }

    /// A fresh facade for this node identity, with an empty ledger.
    pub fn new(node_id: [u8; 6]) -> (r: Self)
        ensures
            r.entries() == Seq::<(u128, B)>::empty(),
            r.spec_node_id() == node_id@,
            r.wf(),
    {
        let r = Gpu { node_id, commands: Vec::new() };
        proof {
            assert(r.entries() =~= Seq::<(u128, B)>::empty());
        }
        r
    }

    /// How many buffers the ledger holds.
    pub fn len(&self) -> (n: usize)
        ensures
            n == self.entries().len(),
    {
        self.commands.len()
    }

    /// Files `buf` under `idx`, keeping the ledger ordered by ascending key;
    /// an entry already carrying the same key is replaced.
    #[verifier::loop_isolation(false)]
    pub fn insert_command(&mut self, idx: CommandListIndex, buf: B)
        requires
            old(self).wf(),
        ensures
            final(self).wf(),
            final(self).entries() == ledger_insert(old(self).entries(), idx.value(), buf),
            final(self).spec_node_id() == old(self).spec_node_id(),
    {
        let k = idx.as_u128();
        let mut i: usize = 0;
        while i < self.commands.len() && self.commands[i].0.as_u128() < k
            invariant
                i <= self.commands@.len(),
                forall|j: int| 0 <= j < i ==> self.entries()[j].0 < k,
            decreases self.commands@.len() - i,
        {
            i = i + 1;
        }
        proof {
            assert(i < self.commands@.len() ==> self.entries()[i as int].0 >= k);
        }
        let ghost s0 = self.entries();
        if i < self.commands.len() && self.commands[i].0.as_u128() == k {
            self.commands.set(i, (idx, buf));
            proof {
                lemma_ledger_insert_at(s0, k, buf, i as int);
                assert(self.entries() =~= s0.update(i as int, (k, buf)));
            }
        } else {
            self.commands.insert(i, (idx, buf));
            proof {
                lemma_ledger_insert_at(s0, k, buf, i as int);
                assert(self.entries() =~= s0.insert(i as int, (k, buf)));
            }
        }
        proof {
            lemma_ledger_insert_sorted(s0, k, buf);
        }
    }

    /// Files one finished buffer under a freshly generated index whose low 48
    /// bits carry this facade's node identity.
    #[verifier::loop_isolation(false)]
    pub fn submit_cmd(&mut self, cmd: B)
        requires
            old(self).wf(),
        ensures
            final(self).wf(),
            final(self).spec_node_id() == old(self).spec_node_id(),
            exists|k: u128|
                final(self).entries() == ledger_insert(old(self).entries(), k, cmd) && k
                    & 0xffff_ffff_ffff == crate::api::node_48(old(self).spec_node_id()),
    {
        let idx = CommandListIndex::new(&self.node_id);
        self.insert_command(idx, cmd);
    }

    /// Files every buffer of `cmds`, in order, each under a freshly generated
    /// index.  The ledger only grows: every key present before is present
    /// after, and collisions aside, exactly `cmds.len()` entries are added.
    #[verifier::loop_isolation(false)]
    pub fn submit_cmds(&mut self, cmds: Vec<B>)
        requires
            old(self).wf(),
        ensures
            final(self).wf(),
            final(self).spec_node_id() == old(self).spec_node_id(),
            old(self).entries().len() <= final(self).entries().len() <= old(self).entries().len()
                + cmds@.len(),
            forall|k: u128| old(self).contains_key(k) ==> final(self).contains_key(k),
            exists|ks: Seq<u128>|
                ks.len() == cmds@.len() && final(self).entries() == ledger_insert_all(
                    old(self).entries(),
                    ks,
                    cmds@,
                ) && forall|t: int|
                    0 <= t < ks.len() ==> #[trigger] ks[t] & 0xffff_ffff_ffff == crate::api::node_48(
                        old(self).spec_node_id(),
                    ),
    {
        let mut rest = cmds;
        let ghost total = cmds@.len();
        let ghost mut keys: Seq<u128> = Seq::empty();
        while rest.len() > 0
            invariant
                self.wf(),
                self.spec_node_id() == old(self).spec_node_id(),
                rest@.len() <= total,
                rest@ == cmds@.skip(keys.len() as int),
                keys.len() + rest@.len() == total,
                old(self).entries().len() <= self.entries().len() <= old(self).entries().len()
                    + total - rest@.len(),
                forall|k: u128| old(self).contains_key(k) ==> self.contains_key(k),
                self.entries() == ledger_insert_all(
                    old(self).entries(),
                    keys,
                    cmds@.take(keys.len() as int),
                ),
                forall|t: int|
                    0 <= t < keys.len() ==> #[trigger] keys[t] & 0xffff_ffff_ffff
                        == crate::api::node_48(old(self).spec_node_id()),
            decreases rest@.len(),
        {
            let ghost n = keys.len() as int;
            let buf = rest.remove(0);
            let ghost before = self.entries();
            let idx = CommandListIndex::new(&self.node_id);
            self.insert_command(idx, buf);
            proof {
                lemma_ledger_insert_sorted(before, idx.value(), buf);
                assert(buf == cmds@[n]);
                assert(cmds@.take(n + 1) =~= cmds@.take(n).push(buf));
                lemma_ledger_insert_all_snoc(
                    old(self).entries(),
                    keys,
                    cmds@.take(n),
                    idx.value(),
                    buf,
                );
                keys = keys.push(idx.value());
                assert(rest@ =~= cmds@.skip(n + 1));
            }
        }
        proof {
            assert(cmds@.take(keys.len() as int) =~= cmds@);
        }
    }

    /// Drains the ledger for one frame.
    ///
    /// `acquisition` is the outcome of acquiring the next surface texture,
    /// which only the backend can perform.  On success the whole ledger is
    /// handed back as one batch, in ascending key order, and the ledger is
    /// left empty; on failure the error is reported and the ledger is left
    /// untouched, so a retry reuses the already finished work.
    #[verifier::loop_isolation(false)]
    pub fn present(&mut self, acquisition: Result<(), SurfaceErrorKind>) -> (r: Result<
        Vec<B>,
        RenderError,
    >)
        ensures
            final(self).spec_node_id() == old(self).spec_node_id(),
            old(self).wf() ==> final(self).wf(),
            acquisition is Ok ==> r is Ok && r->Ok_0@ == old(self).buffers()
                && final(self).entries() == Seq::<(u128, B)>::empty(),
            acquisition is Err ==> r == Err::<Vec<B>, RenderError>(
                RenderError::SurfaceError(acquisition->Err_0),
            ) && *final(self) == *old(self),
    {
        match acquisition {
            Err(kind) => Err(RenderError::SurfaceError(kind)),
            Ok(()) => {
                let mut out: Vec<B> = Vec::new();
                while self.commands.len() > 0
                    invariant
                        self.spec_node_id() == old(self).spec_node_id(),
                        out@.len() <= old(self).entries().len(),
                        self.entries() == old(self).entries().skip(out@.len() as int),
                        out@ == old(self).buffers().take(out@.len() as int),
                    decreases self.commands@.len(),
                {
                    let ghost n = out@.len() as int;
                    let ghost prev_cmds = self.commands@;
                    let ghost prev_entries = self.entries();
                    let entry = self.commands.remove(0);
                    out.push(entry.1);
                    proof {
                        assert(self.commands@ == prev_cmds.remove(0));
                        assert forall|t: int| 0 <= t < self.entries().len() implies self.entries()[t]
                            == old(self).entries()[n + 1 + t] by {
                            assert(self.commands@[t] == prev_cmds[t + 1]);
                            assert(self.entries()[t] == prev_entries[t + 1]);
                            assert(prev_entries[t + 1] == old(self).entries().skip(n)[t + 1]);
                        }
                        assert(self.entries() =~= old(self).entries().skip(n + 1));
                        assert(entry == prev_cmds[0]);
                        assert(entry.1 == prev_entries[0].1);
                        assert(prev_entries[0] == old(self).entries()[n]);
                        assert(out@ =~= old(self).buffers().take(n + 1));
                    }
                }
                proof {
                    assert(out@ =~= old(self).buffers());
                    assert(self.entries() =~= Seq::<(u128, B)>::empty());
                }
                Ok(out)
            },
        }
    }
}

/// The drained batch comes out in strictly ascending key order, whatever
/// order the entries went in: a well-formed ledger's entries, which `present`
/// hands back front to back, carry strictly ascending keys.
pub proof fn lemma_drain_ascending<B>(g: Gpu<B>)
    requires
        g.wf(),
    ensures
        forall|i: int, j: int|
            0 <= i < j < g.entries().len() ==> g.entries()[i].0 < g.entries()[j].0,
{
}

} // verus!
