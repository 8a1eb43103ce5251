//! Request-side declarations and the contents repair pass for the
//! generate-content dialect.

use vstd::prelude::*;

use crate::gemini::generate_content::{
    view_of_contents, Content, ContentView, HarmCategory, Part, PartView, Role,
};

verus! {

#[derive(Debug, Clone, PartialEq)]
pub struct SafetySetting {
    pub category: HarmCategory,
    pub threshold: SafetySettingThreshold,
}

/// The probability threshold at which a response is blocked.
#[derive(Debug, Clone, Copy, PartialEq, Eq, Structural)]
pub enum SafetySettingThreshold {
    BlockNone,
    BlockLowAndAbove,
    BlockMedAndAbove,
    BlockOnlyHigh,
}

// ---------------------------------------------------------------------------
// The repair pass
// ---------------------------------------------------------------------------

/// The single merging pass: a turn whose role equals its predecessor's is
/// folded into it by appending its parts.
pub open spec fn spec_merge_contents(s: Seq<ContentView>) -> Seq<ContentView>
    decreases s.len(),
{
    if s.len() == 0 {
        Seq::empty()
    } else {
        let prefix = spec_merge_contents(s.drop_last());
        let c = s.last();
        if prefix.len() > 0 && prefix.last().role == c.role {
            prefix.drop_last().push(
                ContentView { role: c.role, parts: prefix.last().parts + c.parts },
            )
        } else {
            prefix.push(c)
        }
    }
}

/// The synthetic opening turn used when the merged conversation would begin
/// with the model.
pub open spec fn spec_gemini_opening() -> ContentView {
    ContentView { role: Role::User, parts: seq![PartView::Text("Starting the conversation..."@)] }
}

/// The synthetic continuation turn appended when the conversation would end
/// with the model.
pub open spec fn spec_gemini_continue() -> ContentView {
    ContentView { role: Role::User, parts: seq![PartView::Text("continue"@)] }
}

pub open spec fn spec_gemini_lead_fix(s: Seq<ContentView>) -> Seq<ContentView> {
    if s.len() > 0 && s[0].role == Role::Model {
        seq![spec_gemini_opening()] + s
    } else {
        s
    }
}

pub open spec fn spec_gemini_tail_fix(s: Seq<ContentView>) -> Seq<ContentView> {
    if s.len() > 0 && s.last().role == Role::Model {
        s.push(spec_gemini_continue())
    } else {
        s
    }
}

/// What `process_contents` returns, stated over views.
pub open spec fn spec_process_contents(s: Seq<ContentView>) -> Seq<ContentView> {
    spec_gemini_tail_fix(spec_gemini_lead_fix(spec_merge_contents(s)))
}

proof fn lemma_view_contents_push(s: Seq<Content>, c: Content)
    ensures
        view_of_contents(s.push(c)) =~= view_of_contents(s).push(c@),
{
    assert forall|j: int| 0 <= j < s.len() + 1 implies view_of_contents(s.push(c))[j]
        == view_of_contents(s).push(c@)[j] by {
        if j < s.len() {
            assert(s.push(c)[j] == s[j]);
        } else {
            assert(s.push(c)[j] == c);
        }
    }
}

/// Repair an arbitrary turn sequence into the strict form the dialect
/// requires: merge consecutive same-role turns, open with a synthetic user
/// turn when the conversation would begin with the model, and append a
/// synthetic user turn when it would end with the model.
pub fn process_contents(contents: Vec<Content>) -> (r: Vec<Content>)
    ensures
        view_of_contents(r@) == spec_process_contents(view_of_contents(contents@)),
{
    let ghost orig = view_of_contents(contents@);
    let mut rest = contents;
    let mut filtered: Vec<Content> = Vec::new();
    let ghost mut k: int = 0;
    while rest.len() > 0
        invariant
            0 <= k <= orig.len(),
            view_of_contents(rest@) =~= orig.subrange(k, orig.len() as int),
            view_of_contents(filtered@) =~= spec_merge_contents(orig.take(k)),
        decreases rest.len(),
    {
        let ghost prev = rest@;
        let c = rest.remove(0);
        proof {
            assert(view_of_contents(prev)[0] == prev[0]@);
            assert(view_of_contents(prev) == orig.subrange(k, orig.len() as int));
            assert(view_of_contents(prev).len() == prev.len());
            assert(k < orig.len());
            assert(orig.subrange(k, orig.len() as int)[0] == orig[k]);
            assert(c@ == orig[k]);
            assert(view_of_contents(rest@) =~= orig.subrange(k + 1, orig.len() as int)) by {
                assert forall|j: int| 0 <= j < rest@.len() implies view_of_contents(rest@)[j]
                    == orig[k + 1 + j] by {
                    assert(rest@[j] == prev[j + 1]);
                    assert(view_of_contents(rest@)[j] == rest@[j]@);
                    assert(view_of_contents(prev)[j + 1] == prev[j + 1]@);
                    assert(view_of_contents(prev)[j + 1] == orig.subrange(k, orig.len() as int)[j
                        + 1]);
                    assert(orig.subrange(k, orig.len() as int)[j + 1] == orig[k + 1 + j]);
                }
            }
            assert(orig.take(k + 1).drop_last() =~= orig.take(k));
            assert(orig.take(k + 1).last() == orig[k]);
        }
        let ghost fprev = filtered@;
        proof {
            assert(view_of_contents(fprev).len() == fprev.len());
        }
        let flen = filtered.len();
        if flen > 0 && filtered[flen - 1].role == c.role {
            proof {
                assert(view_of_contents(fprev)[flen - 1] == fprev[flen - 1]@);
                assert(spec_merge_contents(orig.take(k)).last().role == orig[k].role);
            }
            let prev_turn = filtered.pop().unwrap();
            let Content { role: prole, parts: mut pparts } = prev_turn;
            let Content { role: _crole, parts: cparts } = c;
            let ghost pparts_v = pparts@;
            let ghost cparts_v = cparts@;
            let mut incoming = cparts;
            pparts.append(&mut incoming);
            let merged = Content { role: prole, parts: pparts };
            let ghost fpopped = filtered@;
            filtered.push(merged);
            proof {
                assert(fpopped =~= fprev.drop_last());
                lemma_view_contents_push(fpopped, merged);
                assert(merged@.parts =~= spec_merge_contents(orig.take(k)).last().parts
                    + orig[k].parts) by {
                    assert(prev_turn@ == fprev[flen - 1]@);
                    assert(view_of_contents(fprev).last() == spec_merge_contents(
                        orig.take(k),
                    ).last());
                    assert forall|j: int| 0 <= j < merged@.parts.len() implies merged@.parts[j]
                        == (spec_merge_contents(orig.take(k)).last().parts + orig[k].parts)[j] by {
                        if j < pparts_v.len() {
                            assert(pparts@[j] == pparts_v[j]);
                        } else {
                            assert(pparts@[j] == cparts_v[j - pparts_v.len()]);
                        }
                    }
                }
                assert(view_of_contents(fpopped) =~= view_of_contents(fprev).drop_last()) by {
                    assert forall|j: int| 0 <= j < fpopped.len() implies view_of_contents(
                        fpopped,
                    )[j] == view_of_contents(fprev).drop_last()[j] by {
                        assert(fpopped[j] == fprev[j]);
                        assert(view_of_contents(fprev)[j] == fprev[j]@);
                    }
                }
                assert(merged@ == ContentView {
                    role: orig[k].role,
                    parts: spec_merge_contents(orig.take(k)).last().parts + orig[k].parts,
                });
                assert(spec_merge_contents(orig.take(k + 1)) == spec_merge_contents(
                    orig.take(k),
                ).drop_last().push(
                    ContentView {
                        role: orig[k].role,
                        parts: spec_merge_contents(orig.take(k)).last().parts + orig[k].parts,
                    },
                ));
                assert(view_of_contents(filtered@) =~= spec_merge_contents(orig.take(k + 1)));
                k = k + 1;
            }
        } else {
            filtered.push(c);
            proof {
                lemma_view_contents_push(fprev, c);
                if flen > 0 {
                    assert(view_of_contents(fprev)[flen - 1] == fprev[flen - 1]@);
                    assert(spec_merge_contents(orig.take(k)).last().role != orig[k].role);
                }
                assert(spec_merge_contents(orig.take(k + 1)) == spec_merge_contents(
                    orig.take(k),
                ).push(orig[k]));
                assert(view_of_contents(filtered@) =~= spec_merge_contents(orig.take(k + 1)));
                k = k + 1;
            }
        }
    }
    proof {
        assert(orig.take(orig.len() as int) =~= orig);
        assert(view_of_contents(filtered@) =~= spec_merge_contents(orig));
    }
    let ghost merged_all = spec_merge_contents(orig);

    let flen0 = filtered.len();
    if flen0 > 0 && filtered[0].role == Role::Model {
        let ghost fprev = filtered@;
        proof {
            assert(view_of_contents(fprev)[0] == fprev[0]@);
        }
        let mut opening_parts: Vec<Part> = Vec::new();
        opening_parts.push(Part::Text("Starting the conversation...".to_owned()));
        filtered.insert(0, Content { role: Role::User, parts: opening_parts });
        proof {
            assert forall|j: int| 0 <= j < filtered@.len() implies view_of_contents(filtered@)[j]
                == (seq![spec_gemini_opening()] + merged_all)[j] by {
                assert(view_of_contents(filtered@)[j] == filtered@[j]@);
                if j == 0 {
                    assert(filtered@[0]@.parts =~= seq![
                        PartView::Text("Starting the conversation..."@),
                    ]);
                } else {
                    assert(filtered@[j] == fprev[j - 1]);
                    assert(view_of_contents(fprev)[j - 1] == fprev[j - 1]@);
                }
            }
            assert(view_of_contents(filtered@) =~= spec_gemini_lead_fix(merged_all));
        }
    } else {
        proof {
            if flen0 > 0 {
                assert(view_of_contents(filtered@)[0] == filtered@[0]@);
            }
            assert(view_of_contents(filtered@) =~= spec_gemini_lead_fix(merged_all));
        }
    }
    let ghost led = spec_gemini_lead_fix(merged_all);

    let flen1 = filtered.len();
    if flen1 > 0 && filtered[flen1 - 1].role == Role::Model {
        let ghost fprev = filtered@;
        proof {
            assert(view_of_contents(fprev)[flen1 - 1] == fprev[flen1 - 1]@);
        }
        let mut cont_parts: Vec<Part> = Vec::new();
        cont_parts.push(Part::Text("continue".to_owned()));
        filtered.push(Content { role: Role::User, parts: cont_parts });
        proof {
            lemma_view_contents_push(fprev, filtered@[flen1 as int]);
            assert(filtered@[flen1 as int]@.parts =~= seq![PartView::Text("continue"@)]);
            assert(view_of_contents(filtered@) =~= led.push(spec_gemini_continue()));
            assert(view_of_contents(filtered@) =~= spec_gemini_tail_fix(led));
        }
    } else {
        proof {
            if flen1 > 0 {
                assert(view_of_contents(filtered@)[flen1 - 1] == filtered@[flen1 - 1]@);
            }
            assert(view_of_contents(filtered@) =~= spec_gemini_tail_fix(led));
        }
    }
    proof {
        assert(view_of_contents(filtered@) =~= spec_process_contents(orig));
    }
    filtered
}

/// No two neighbouring turns share a role.
pub open spec fn spec_contents_alternate(s: Seq<ContentView>) -> bool {
    forall|i: int| 0 <= i < s.len() - 1 ==> (#[trigger] s[i]).role != s[i + 1].role
}

/// The merging pass leaves no two neighbouring turns with one role, and
/// keeps the first turn's role.
#[verifier::rlimit(100)]
proof fn lemma_merge_contents_props(s: Seq<ContentView>)
    ensures
        spec_contents_alternate(spec_merge_contents(s)),
        s.len() > 0 ==> spec_merge_contents(s).len() > 0 && spec_merge_contents(s)[0].role
            == s[0].role,
    decreases s.len(),
{
    if s.len() > 0 {
        lemma_merge_contents_props(s.drop_last());
        let prefix = spec_merge_contents(s.drop_last());
        let c = s.last();
        let out = spec_merge_contents(s);
        if s.len() > 1 {
            assert(s.drop_last()[0] == s[0]);
        }
        if prefix.len() > 0 && prefix.last().role == c.role {
            let merged = ContentView { role: c.role, parts: prefix.last().parts + c.parts };
            assert(out == prefix.drop_last().push(merged));
            assert forall|i: int| 0 <= i < out.len() - 1 implies (#[trigger] out[i]).role != out[i
                + 1].role by {
                assert(out[i] == prefix[i]);
                if i + 1 < out.len() - 1 {
                    assert(out[i + 1] == prefix[i + 1]);
                } else {
                    assert(out[i + 1] == merged);
                    assert(merged.role == prefix.last().role);
                }
            }
        } else {
            assert(out == prefix.push(c));
            assert forall|i: int| 0 <= i < out.len() - 1 implies (#[trigger] out[i]).role != out[i
                + 1].role by {
                assert(out[i] == prefix[i]);
                if i + 1 < out.len() - 1 {
                    assert(out[i + 1] == prefix[i + 1]);
                } else {
                    assert(out[i + 1] == c);
                }
            }
        }
    }
}

/// The leading fixup yields a conversation that opens with the user and
/// still alternates.
#[verifier::rlimit(100)]
proof fn lemma_gemini_lead_props(s: Seq<ContentView>)
    requires
        s.len() > 0,
    ensures
        spec_gemini_lead_fix(spec_merge_contents(s)).len() > 0,
        spec_gemini_lead_fix(spec_merge_contents(s))[0].role == Role::User,
        spec_contents_alternate(spec_gemini_lead_fix(spec_merge_contents(s))),
{
    lemma_merge_contents_props(s);
    let m = spec_merge_contents(s);
    let l = spec_gemini_lead_fix(m);
    if m[0].role == Role::Model {
        assert(l == seq![spec_gemini_opening()] + m);
        assert(l[0] == spec_gemini_opening());
        assert forall|i: int| 0 <= i < l.len() - 1 implies (#[trigger] l[i]).role != l[i
            + 1].role by {
            if i == 0 {
                assert(l[1] == m[0]);
            } else {
                assert(l[i] == m[i - 1]);
                assert(l[i + 1] == m[i]);
            }
        }
    } else {
        assert(l == m);
    }
}

/// For every non-empty input, the repaired conversation opens with the user,
/// strictly alternates, and ends with a user turn.
#[verifier::rlimit(100)]
pub proof fn lemma_process_contents_wellformed(s: Seq<ContentView>)
    requires
        s.len() > 0,
    ensures
        spec_process_contents(s).len() > 0,
        spec_process_contents(s)[0].role == Role::User,
        spec_contents_alternate(spec_process_contents(s)),
        spec_process_contents(s).last().role == Role::User,
{
    lemma_gemini_lead_props(s);
    let l = spec_gemini_lead_fix(spec_merge_contents(s));
    let t = spec_gemini_tail_fix(l);
    if l.last().role == Role::Model {
        assert(t == l.push(spec_gemini_continue()));
        assert(t[0] == l[0]);
        assert forall|i: int| 0 <= i < t.len() - 1 implies (#[trigger] t[i]).role != t[i
            + 1].role by {
            if i < t.len() - 2 {
                assert(t[i] == l[i]);
                assert(t[i + 1] == l[i + 1]);
            } else {
                assert(t[i] == l.last());
                assert(t[i + 1] == spec_gemini_continue());
            }
        }
        assert(t.last() == spec_gemini_continue());
    } else {
        assert(t == l);
    }
}

} // verus!
