//! Loopback exemption of application containers: which containers to
//! change to match a saved selection, and the answers to the front-end.
use vstd::prelude::*;
use vstd::string::StringExecFns;
use crate::text::{decimal, decimal_text};

verus! {

/// Request for the list of application containers.
pub struct GetAppContainers;

/// Request to switch the loopback exemption of one package.
pub struct SetLoopback {
    pub package_family_name: String,
    pub enabled: bool,
}

/// Request to make exactly the containers with these SIDs exempt.
pub struct SaveLoopbackConfiguration {
    pub sid_strings: Vec<String>,
}

/// Opening message of a container listing.
pub struct AppContainersList {
    pub containers: Vec<String>,
}

/// One application container and its exemption state.
pub struct AppContainerInfo {
    pub app_container_name: String,
    pub display_name: String,
    pub package_family_name: String,
    pub sid: Vec<u8>,
    pub sid_string: String,
    pub is_loopback_enabled: bool,
}

/// Outcome of `SetLoopback`.
pub struct SetLoopbackResult {
    pub success: bool,
    pub message: String,
}

/// Closing message of a container listing.
pub struct AppContainersComplete;

/// Outcome of `SaveLoopbackConfiguration`.
pub struct SaveLoopbackConfigurationResult {
    pub success: bool,
    pub message: String,
}

/// The messages of a container listing, in sending order: the opening
/// message, one message per container, the closing message.
pub struct AppContainersReply {
    pub list: AppContainersList,
    pub containers: Vec<AppContainerInfo>,
    pub complete: AppContainersComplete,
}

impl GetAppContainers {
    /// Listing from the enumeration outcome; a failed enumeration still
    /// opens and closes the listing, with no container in it.
    pub fn handle(&self, enumerated: Result<Vec<AppContainerInfo>, String>) -> (r: AppContainersReply)
        ensures
            r.list.containers@.len() == 0,
            match enumerated {
                Ok(cs) => r.containers == cs,
                Err(_) => r.containers@.len() == 0,
            },
    {
        let containers = match enumerated {
            Ok(cs) => cs,
            Err(_) => Vec::new(),
        };
        AppContainersReply { list: AppContainersList { containers: Vec::new() }, containers, complete: AppContainersComplete }
    }
}

impl SetLoopback {
    /// Answer from the outcome of the system call.
    pub fn handle(&self, outcome: Result<(), String>) -> (r: SetLoopbackResult)
        ensures
            match outcome {
                Ok(_) => r.success && r.message@ == "回环豁免设置成功"@,
                Err(e) => !r.success && r.message == e,
            },
    {
        match outcome {
            Ok(_) => {
                proof {
                    reveal_strlit("回环豁免设置成功");
                }
                SetLoopbackResult { success: true, message: String::from_str("回环豁免设置成功") }
            },
            Err(e) => SetLoopbackResult { success: false, message: e },
        }
    }
}

/// The SID is among the selected ones.
pub open spec fn selected(sids: Seq<String>, sid: Seq<char>) -> bool {
    exists|i: int| 0 <= i < sids.len() && #[trigger] sids[i]@ == sid
}

/// The container's exemption differs from what the selection asks.
pub open spec fn needs_change(sids: Seq<String>, c: AppContainerInfo) -> bool {
    c.is_loopback_enabled != selected(sids, c.sid_string@)
}

/// Number of containers whose exemption differs from the selection.
pub open spec fn changes_needed(sids: Seq<String>, cs: Seq<AppContainerInfo>) -> nat
    decreases cs.len(),
{
    if cs.len() == 0 {
        0
    } else {
        changes_needed(sids, cs.drop_last()) + if needs_change(sids, cs.last()) { 1nat } else { 0nat }
    }
}

/// Positions, in order, of the containers whose exemption differs from
/// the selection.
pub open spec fn planned(sids: Seq<String>, cs: Seq<AppContainerInfo>) -> Seq<int>
    decreases cs.len(),
{
    if cs.len() == 0 {
        Seq::empty()
    } else if needs_change(sids, cs.last()) {
        planned(sids, cs.drop_last()).push(cs.len() - 1)
    } else {
        planned(sids, cs.drop_last())
    }
}

/// Number of successful outcomes.
pub open spec fn ok_count(outs: Seq<Result<(), String>>) -> nat
    decreases outs.len(),
{
    if outs.len() == 0 {
        0
    } else {
        ok_count(outs.drop_last()) + if outs.last() is Ok { 1nat } else { 0nat }
    }
}

/// One line per failed outcome, in order: the display name of the container
/// changed at that position and the error.
pub open spec fn failure_lines(cs: Seq<AppContainerInfo>, pos: Seq<int>, outs: Seq<Result<(), String>>) -> Seq<Seq<char>>
    decreases outs.len(),
{
    if outs.len() == 0 {
        Seq::empty()
    } else {
        let rest = failure_lines(cs, pos, outs.drop_last());
        match outs.last() {
            Ok(_) => rest,
            Err(e) => rest.push(cs[pos[outs.len() - 1]].display_name@ + "："@ + e@),
        }
    }
}

/// Each outcome is one that `set_exemption` may give for the container at
/// the matching position, switched to the opposite of its current state.
pub open spec fn calls_match<F: Fn(&Vec<u8>, bool) -> Result<(), String>>(
    cs: Seq<AppContainerInfo>,
    pos: Seq<int>,
    outs: Seq<Result<(), String>>,
    set_exemption: F,
) -> bool {
    &&& outs.len() == pos.len()
    &&& forall|k: int| 0 <= k < outs.len() ==> set_exemption.ensures(
        (&cs[pos[k]].sid, !cs[pos[k]].is_loopback_enabled),
        #[trigger] outs[k],
    )
}

/// `r` reports `done` changes made and the `failed` lines.
pub open spec fn save_answer(done: nat, failed: Seq<Seq<char>>, r: SaveLoopbackConfigurationResult) -> bool {
    &&& r.success == (failed.len() == 0)
    &&& failed.len() == 0 ==> r.message@ == saved_text(done)
    &&& failed.len() > 0 ==> r.message@ == partial_text(done, failed)
}

/// The lines of `parts` joined with a newline.
pub open spec fn joined_lines(parts: Seq<Seq<char>>) -> Seq<char>
    decreases parts.len(),
{
    if parts.len() == 0 {
        Seq::empty()
    } else if parts.len() == 1 {
        parts[0]
    } else {
        joined_lines(parts.drop_last()) + seq!['\n'] + parts.last()
    }
}

/// Message of a fully successful save.
pub open spec fn saved_text(changed: nat) -> Seq<char> {
    "配置保存成功（修改："@ + decimal(changed) + "个容器）"@
}

/// Message of a save with failures.
pub open spec fn partial_text(succeeded: nat, errors: Seq<Seq<char>>) -> Seq<char> {
    "部分操作失败（成功："@ + decimal(succeeded) + "，失败："@
        + decimal(errors.len()) + "）：\n"@ + joined_lines(errors)
}

/// Message of a failed enumeration.
pub open spec fn enumeration_failure_text(e: Seq<char>) -> Seq<char> {
    "无法枚举容器："@ + e
}

/// Joins the lines with a newline between two of them.
pub fn join_lines(parts: &Vec<String>) -> (r: String)
    ensures
        r@ == joined_lines(parts@.map_values(|s: String| s@)),
{
    let ghost views = parts@.map_values(|s: String| s@);
    let mut out = String::new();
    let mut i: usize = 0;
    while i < parts.len()
        invariant
            views == parts@.map_values(|s: String| s@),
            i <= parts@.len(),
            out@ == joined_lines(views.subrange(0, i as int)),
        decreases parts.len() - i,
    {
        let ghost before = views.subrange(0, i as int);
        assert(views.subrange(0, i + 1).drop_last() =~= before);
        if i > 0 {
            out = out.concat("\n");
            proof {
                reveal_strlit("\n");
            }
        }
        out = out.concat(parts[i].as_str());
        proof {
            if i == 0 {
                assert(out@ =~= joined_lines(views.subrange(0, 1)));
            } else {
                assert(out@ =~= joined_lines(views.subrange(0, i + 1)));
            }
        }
        i = i + 1;
    }
    assert(views.subrange(0, parts@.len() as int) =~= views);
    out
}

impl SaveLoopbackConfiguration {
    /// Whether the container with this SID is to be exempt.
    pub fn wants_enabled(&self, sid: &String) -> (r: bool)
        ensures
            r == selected(self.sid_strings@, sid@),
    {
        let mut i: usize = 0;
        while i < self.sid_strings.len()
            invariant
                i <= self.sid_strings@.len(),
                forall|j: int| 0 <= j < i ==> self.sid_strings@[j]@ != sid@,
            decreases self.sid_strings.len() - i,
        {
            if self.sid_strings[i].eq(sid) {
                return true;
            }
            i = i + 1;
        }
        false
    }

    /// Positions, in order, of the containers whose exemption must change.
    pub fn plan(&self, containers: &Vec<AppContainerInfo>) -> (r: Vec<usize>)
        ensures
            r@.len() == changes_needed(self.sid_strings@, containers@),
            r@.len() == planned(self.sid_strings@, containers@).len(),
            forall|k: int| 0 <= k < r@.len() ==> r@[k] as int == #[trigger] planned(self.sid_strings@, containers@)[k],
            forall|k: int| 0 <= k < r@.len() ==> #[trigger] r@[k] < containers@.len(),
            forall|k: int, l: int| 0 <= k < l < r@.len() ==> r@[k] < r@[l],
            forall|k: int| 0 <= k < r@.len() ==> needs_change(self.sid_strings@, #[trigger] containers@[r@[k] as int]),
            forall|i: int| 0 <= i < containers@.len() && needs_change(self.sid_strings@, #[trigger] containers@[i])
                ==> exists|k: int| 0 <= k < r@.len() && r@[k] == i,
    {
        let mut out: Vec<usize> = Vec::new();
        let mut i: usize = 0;
        while i < containers.len()
            invariant
                i <= containers@.len(),
                out@.len() == changes_needed(self.sid_strings@, containers@.subrange(0, i as int)),
                out@.len() == planned(self.sid_strings@, containers@.subrange(0, i as int)).len(),
                forall|k: int| 0 <= k < out@.len() ==> out@[k] as int
                    == #[trigger] planned(self.sid_strings@, containers@.subrange(0, i as int))[k],
                forall|k: int| 0 <= k < out@.len() ==> #[trigger] out@[k] < i,
                forall|k: int, l: int| 0 <= k < l < out@.len() ==> out@[k] < out@[l],
                forall|k: int| 0 <= k < out@.len() ==> needs_change(self.sid_strings@, #[trigger] containers@[out@[k] as int]),
                forall|j: int| 0 <= j < i && needs_change(self.sid_strings@, #[trigger] containers@[j])
                    ==> exists|k: int| 0 <= k < out@.len() && out@[k] == j,
            decreases containers.len() - i,
        {
            let c = &containers[i];
            let want = self.wants_enabled(&c.sid_string);
            let ghost old_out = out@;
            assert(containers@.subrange(0, i + 1).drop_last() =~= containers@.subrange(0, i as int));
            assert(containers@.subrange(0, i + 1).last() == containers@[i as int]);
            if c.is_loopback_enabled != want {
                out.push(i);
                assert(out@[out@.len() - 1] == i);
                assert forall|j: int| 0 <= j < i + 1 && needs_change(self.sid_strings@, #[trigger] containers@[j])
                    implies exists|k: int| 0 <= k < out@.len() && out@[k] == j by {
                    if j < i {
                        let k0 = choose|k: int| 0 <= k < old_out.len() && old_out[k] == j;
                        assert(out@[k0] == j);
                    }
                }
            }
            i = i + 1;
        }
        assert(containers@.subrange(0, containers@.len() as int) =~= containers@);
        out
    }

    /// Answer of a save once every planned change was attempted:
    /// `succeeded` changes went through and `errors` describes the others.
    pub fn summary(succeeded: usize, errors: &Vec<String>) -> (r: SaveLoopbackConfigurationResult)
        ensures
            r.success == (errors@.len() == 0),
            errors@.len() == 0 ==> r.message@ == saved_text(succeeded as nat),
            errors@.len() > 0 ==> r.message@ == partial_text(
                succeeded as nat,
                errors@.map_values(|s: String| s@),
            ),
    {
        proof {
            reveal_strlit("配置保存成功（修改：");
            reveal_strlit("个容器）");
            reveal_strlit("部分操作失败（成功：");
            reveal_strlit("，失败：");
            reveal_strlit("）：\n");
        }
        if errors.len() == 0 {
            let m = String::from_str("配置保存成功（修改：")
                .concat(decimal_text(succeeded as u64).as_str())
                .concat("个容器）");
            SaveLoopbackConfigurationResult { success: true, message: m }
        } else {
            let m = String::from_str("部分操作失败（成功：")
                .concat(decimal_text(succeeded as u64).as_str())
                .concat("，失败：")
                .concat(decimal_text(errors.len() as u64).as_str())
                .concat("）：\n")
                .concat(join_lines(errors).as_str());
            proof {
                assert(errors@.map_values(|s: String| s@).len() == errors@.len());
            }
            SaveLoopbackConfigurationResult { success: false, message: m }
        }
    }

    /// Brings every container to the selection: each planned change is made
    /// through `set_exemption` (SID bytes, new state), and the answer
    /// counts the changes made and lists the failed ones.
    pub fn handle<F: Fn(&Vec<u8>, bool) -> Result<(), String>>(
        &self,
        enumerated: Result<Vec<AppContainerInfo>, String>,
        set_exemption: &F,
    ) -> (r: SaveLoopbackConfigurationResult)
        requires
            forall|sid: &Vec<u8>, on: bool| set_exemption.requires((sid, on)),
        ensures
            match enumerated {
                Err(e) => !r.success && r.message@ == enumeration_failure_text(e@),
                Ok(cs) => exists|outs: Seq<Result<(), String>>|
                    calls_match(cs@, planned(self.sid_strings@, cs@), outs, *set_exemption)
                    && #[trigger] save_answer(ok_count(outs), failure_lines(cs@, planned(self.sid_strings@, cs@), outs), r),
            },
    {
        let containers = match enumerated {
            Ok(cs) => cs,
            Err(e) => {
                proof {
                    reveal_strlit("无法枚举容器：");
                }
                return SaveLoopbackConfigurationResult {
                    success: false,
                    message: String::from_str("无法枚举容器：").concat(e.as_str()),
                };
            },
        };
        let changes = self.plan(&containers);
        let ghost pos = planned(self.sid_strings@, containers@);
        let ghost mut outs: Seq<Result<(), String>> = Seq::empty();
        let mut errors: Vec<String> = Vec::new();
        let mut succeeded: usize = 0;
        let mut k: usize = 0;
        while k < changes.len()
            invariant
                k <= changes@.len(),
                succeeded <= k,
                succeeded + errors@.len() == k,
                forall|j: int| 0 <= j < changes@.len() ==> #[trigger] changes@[j] < containers@.len(),
                pos == planned(self.sid_strings@, containers@),
                changes@.len() == pos.len(),
                forall|j: int| 0 <= j < changes@.len() ==> changes@[j] as int == #[trigger] pos[j],
                outs.len() == k,
                calls_match(containers@, pos.subrange(0, k as int), outs, *set_exemption),
                succeeded == ok_count(outs),
                errors@.map_values(|s: String| s@) == failure_lines(containers@, pos, outs),
                forall|sid: &Vec<u8>, on: bool| set_exemption.requires((sid, on)),
            decreases changes.len() - k,
        {
            let c = &containers[changes[k]];
            let on = !c.is_loopback_enabled;
            let outcome = set_exemption(&c.sid, on);
            let ghost prev_outs = outs;
            let ghost prev_errors = errors@;
            proof {
                outs = outs.push(outcome);
                assert(outs.drop_last() =~= prev_outs);
                assert(pos[k as int] == changes@[k as int] as int);
                assert forall|j: int| 0 <= j < outs.len() implies set_exemption.ensures(
                    (&containers@[pos.subrange(0, k + 1)[j]].sid, !containers@[pos.subrange(0, k + 1)[j]].is_loopback_enabled),
                    #[trigger] outs[j],
                ) by {
                    if j < k {
                        assert(pos.subrange(0, k + 1)[j] == pos.subrange(0, k as int)[j]);
                        assert(outs[j] == prev_outs[j]);
                    }
                }
            }
            match outcome {
                Ok(_) => {
                    succeeded = succeeded + 1;
                },
                Err(e) => {
                    proof {
                        reveal_strlit("：");
                    }
                    let line = c.display_name.clone().concat("：").concat(e.as_str());
                    errors.push(line);
                    proof {
                        assert(errors@.map_values(|s: String| s@) =~= prev_errors.map_values(|s: String| s@).push(line@));
                    }
                },
            }
            k = k + 1;
        }
        let r = Self::summary(succeeded, &errors);
        proof {
            assert(pos.subrange(0, k as int) =~= pos);
            assert(save_answer(ok_count(outs), failure_lines(containers@, pos, outs), r));
        }
        r
    }
}

} // verus!
