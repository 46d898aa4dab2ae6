//! Installing the project scaffold: which kit files are written where, and
//! the files touched afterwards.
use vstd::prelude::*;

use crate::text;

verus! {

/// A kit file to write: its path inside the kit and its target.
#[derive(Debug)]
pub struct KitWrite {
    pub source: String,
    pub target: String,
}

/// The scaffold directory of a project.
pub open spec fn agents_dir_of(project_root: Seq<char>) -> Seq<char> {
    text::join_path(project_root, ".agents"@)
}

/// The kit files written, in kit order: all of them when re-initializing,
/// otherwise those whose target is not there yet.
pub open spec fn kit_writes_of(
    project_root: Seq<char>,
    is_reinit: bool,
    kit_files: Seq<Seq<char>>,
    present: Seq<bool>,
) -> Seq<(Seq<char>, Seq<char>)>
    decreases kit_files.len(),
{
    if kit_files.len() == 0 {
        seq![]
    } else {
        let n = (kit_files.len() - 1) as int;
        let before = kit_writes_of(project_root, is_reinit, kit_files.drop_last(), present.subrange(0, n));
        if is_reinit || !present[n] {
            before.push((kit_files[n], text::join_path(agents_dir_of(project_root), kit_files[n])))
        } else {
            before
        }
    }
}

/// `<project_root>/.agents`.
pub fn agents_dir(project_root: &str) -> (r: String)
    ensures
        r@ == agents_dir_of(project_root@),
{
    text::join(project_root, ".agents")
}

/// The kit files to write into `<project_root>/.agents/`: each kit file
/// goes to the same relative path there; on a first initialization files
/// already present (`present[i]` for `kit_files[i]`) are left alone.
pub fn copy_kit(project_root: &str, is_reinit: bool, kit_files: &Vec<String>, present: &Vec<bool>) -> (r:
    Vec<KitWrite>)
    requires
        kit_files.len() == present.len(),
    ensures
        r@.map_values(|w: KitWrite| (w.source@, w.target@)) == kit_writes_of(
            project_root@,
            is_reinit,
            kit_files@.map_values(|f: String| f@),
            present@,
        ),
{
    let dir = agents_dir(project_root);
    let ghost files = kit_files@.map_values(|f: String| f@);
    let mut r: Vec<KitWrite> = Vec::new();
    let mut i: usize = 0;
    while i < kit_files.len()
        invariant
            i <= kit_files.len(),
            kit_files.len() == present.len(),
            dir@ == agents_dir_of(project_root@),
            files == kit_files@.map_values(|f: String| f@),
            r@.map_values(|w: KitWrite| (w.source@, w.target@)) == kit_writes_of(
                project_root@,
                is_reinit,
                files.subrange(0, i as int),
                present@.subrange(0, i as int),
            ),
        decreases kit_files.len() - i,
    {
        let ghost before = r@;
        proof {
            let fs = files.subrange(0, i + 1);
            assert(fs.drop_last() =~= files.subrange(0, i as int));
            assert(present@.subrange(0, i + 1).subrange(0, i as int) =~= present@.subrange(0, i as int));
            assert(fs[i as int] == kit_files@[i as int]@);
        }
        if is_reinit || !present[i] {
            let target = text::join(dir.as_str(), kit_files[i].as_str());
            r.push(KitWrite { source: kit_files[i].clone(), target });
            assert(r@.map_values(|w: KitWrite| (w.source@, w.target@)) =~= before.map_values(
                |w: KitWrite| (w.source@, w.target@),
            ).push((kit_files@[i as int]@, text::join_path(agents_dir_of(project_root@), kit_files@[i as int]@))));
        }
        i = i + 1;
    }
    proof {
        assert(files.subrange(0, kit_files.len() as int) =~= files);
        assert(present@.subrange(0, kit_files.len() as int) =~= present@);
    }
    r
}

/// The sample ignore file shipped in the kit and the name it is renamed to.
pub fn gitignore_paths(agents_dir: &str) -> (r: (String, String))
    ensures
        r.0@ == text::join_path(agents_dir@, ".example.gitignore"@),
        r.1@ == text::join_path(agents_dir@, ".gitignore"@),
{
    (text::join(agents_dir, ".example.gitignore"), text::join(agents_dir, ".gitignore"))
}

/// The glob of the placeholder `.gitkeep` files removed after copying.
pub fn gitkeep_pattern(agents_dir: &str) -> (r: String)
    ensures
        r@ == text::join_path(agents_dir@, "**/.gitkeep"@),
{
    text::join(agents_dir, "**/.gitkeep")
}

/// Where the project's OpenCode configuration is placed (never overwritten
/// once there).
pub fn opencode_config_destination(project_root: &str) -> (r: String)
    ensures
        r@ == text::join_path(project_root@, ".opencode/opencode.json"@),
{
    text::join(project_root, ".opencode/opencode.json")
}

/// The write of one scaffold file: its path in the kit and its target under
/// `.agents/`.
pub open spec fn kit_write_of(project_root: Seq<char>, file: Seq<char>) -> (Seq<char>, Seq<char>) {
    (file, text::join_path(agents_dir_of(project_root), file))
}

/// A refresh rewrites the whole scaffold: every kit file, in kit order,
/// whether or not it is already there. A first init never overwrites: each
/// file it writes was missing.
pub proof fn law_refresh_rewrites_fresh_init_fills(
    project_root: Seq<char>,
    kit_files: Seq<Seq<char>>,
    present: Seq<bool>,
)
    requires
        kit_files.len() == present.len(),
    ensures
        kit_writes_of(project_root, true, kit_files, present) == kit_files.map_values(
            |f: Seq<char>| kit_write_of(project_root, f),
        ),
        forall|k: int|
            0 <= k < kit_writes_of(project_root, false, kit_files, present).len() ==> exists|i: int|
                0 <= i < kit_files.len() && !present[i] && #[trigger] kit_writes_of(
                    project_root,
                    false,
                    kit_files,
                    present,
                )[k] == kit_write_of(project_root, kit_files[i]),
    decreases kit_files.len(),
{
    if kit_files.len() > 0 {
        let n = (kit_files.len() - 1) as int;
        let fs = kit_files.drop_last();
        let ps = present.subrange(0, n);
        law_refresh_rewrites_fresh_init_fills(project_root, fs, ps);
        assert(fs.map_values(|f: Seq<char>| kit_write_of(project_root, f)).push(
            kit_write_of(project_root, kit_files[n]),
        ) =~= kit_files.map_values(|f: Seq<char>| kit_write_of(project_root, f)));
        let fresh = kit_writes_of(project_root, false, kit_files, present);
        let before = kit_writes_of(project_root, false, fs, ps);
        assert forall|k: int| 0 <= k < fresh.len() implies exists|i: int|
            0 <= i < kit_files.len() && !present[i] && #[trigger] fresh[k] == kit_write_of(
                project_root,
                kit_files[i],
            ) by {
            if k < before.len() {
                let i = choose|i: int|
                    0 <= i < fs.len() && !ps[i] && #[trigger] before[k] == kit_write_of(project_root, fs[i]);
                assert(fresh[k] == before[k]);
                assert(fs[i] == kit_files[i] && ps[i] == present[i]);
            } else {
                assert(!present[n] && fresh[k] == kit_write_of(project_root, kit_files[n]));
            }
        }
    }
}

/// A first init writes every kit file that is missing: for each kit file
/// whose target is not there yet, its write is among the writes.
pub proof fn law_fresh_init_writes_every_missing_file(
    project_root: Seq<char>,
    kit_files: Seq<Seq<char>>,
    present: Seq<bool>,
    i: int,
)
    requires
        kit_files.len() == present.len(),
        0 <= i < kit_files.len(),
        !present[i],
    ensures
        kit_writes_of(project_root, false, kit_files, present).contains(
            kit_write_of(project_root, kit_files[i]),
        ),
    decreases kit_files.len(),
{
    let n = (kit_files.len() - 1) as int;
    let fs = kit_files.drop_last();
    let ps = present.subrange(0, n);
    let before = kit_writes_of(project_root, false, fs, ps);
    let all = kit_writes_of(project_root, false, kit_files, present);
    if i == n {
        assert(all == before.push(kit_write_of(project_root, kit_files[n])));
        assert(all[all.len() - 1] == kit_write_of(project_root, kit_files[i]));
    } else {
        law_fresh_init_writes_every_missing_file(project_root, fs, ps, i);
        assert(fs[i] == kit_files[i] && ps[i] == present[i]);
        let k = choose|k: int| 0 <= k < before.len() && before[k] == kit_write_of(project_root, fs[i]);
        if !present[n] {
            assert(all == before.push(kit_write_of(project_root, kit_files[n])));
            assert(all[k] == before[k]);
        } else {
            assert(all == before);
        }
    }
}

} // verus!
