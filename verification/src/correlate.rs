//! Download-log correlation.
//!
//! The external downloader prints a free-text run log. Two marker line
//! shapes reveal which output files a batch produced: a thumbnail-embedding
//! step that names its target in double quotes, and a command-execution
//! hook that names it as the first single-quoted token. Correlation
//! extracts those paths in order of appearance, derives each file's base
//! name by stripping the directory prefix and the known media extension,
//! and drops entries whose file is absent on disk (the caller supplies the
//! existence flags, one per entry).

use vstd::prelude::*;
use vstd::string::*;
use crate::strutil::find_from;
use crate::strutil::lemma_find_from;
use crate::strutil::spec_split;
use crate::strutil::spec_starts_with;
use crate::strutil::spec_ends_with;
use crate::strutil::split_on_char;
use crate::strutil::starts_with;
use crate::strutil::ends_with;
use crate::strutil::find_char_from;
use crate::strutil::rfind_char;
use crate::strutil::copy_range;

verus! {

/// One output file recovered from the run log.
pub struct CorrelatedFile {
    pub absolute_path: String,
    pub base_name: String,
    pub media_extension: String,
}

#[verifier::ext_equal]
pub struct CorrelatedFileView {
    pub absolute_path: Seq<char>,
    pub base_name: Seq<char>,
    pub media_extension: Seq<char>,
}

impl View for CorrelatedFile {
    type V = CorrelatedFileView;

    open spec fn view(&self) -> CorrelatedFileView {
        CorrelatedFileView {
            absolute_path: self.absolute_path@,
            base_name: self.base_name@,
            media_extension: self.media_extension@,
        }
    }
}

impl DeepView for CorrelatedFile {
    type V = CorrelatedFileView;

    open spec fn deep_view(&self) -> CorrelatedFileView {
        self.view()
    }
}

pub open spec fn embed_marker_prefix() -> Seq<char> {
    "[EmbedThumbnail] Adding thumbnail to \""@
}

pub open spec fn command_marker_prefix() -> Seq<char> {
    "[Exec] Executing command: "@
}

/// A line with a trailing carriage return shed.
pub open spec fn spec_clean_line(l: Seq<char>) -> Seq<char> {
    if l.len() > 0 && l.last() == '\r' {
        l.subrange(0, l.len() - 1)
    } else {
        l
    }
}

/// The log as lines: split on newline, trailing carriage returns shed.
pub open spec fn spec_lines(log: Seq<char>) -> Seq<Seq<char>> {
    spec_split(log, '\n').map_values(|l: Seq<char>| spec_clean_line(l))
}

/// The path a thumbnail-embedding marker names: the prefix announces it and
/// a closing double quote ends it.
pub open spec fn embed_marker(line: Seq<char>) -> Option<Seq<char>> {
    let p = embed_marker_prefix();
    if spec_starts_with(line, p) && line.len() > p.len() && line.last() == '"' {
        Some(line.subrange(p.len() as int, line.len() - 1))
    } else {
        None
    }
}

/// The path a command-execution marker names: the first single-quoted
/// token after the prefix, surrounding quotes shed.
pub open spec fn command_marker(line: Seq<char>) -> Option<Seq<char>> {
    let p = command_marker_prefix();
    if spec_starts_with(line, p) {
        let q1 = find_from(line, '\'', p.len() as int);
        if q1 < line.len() {
            let q2 = find_from(line, '\'', q1 + 1);
            if q2 < line.len() {
                Some(line.subrange(q1 + 1, q2))
            } else {
                None
            }
        } else {
            None
        }
    } else {
        None
    }
}

/// The output path a log line names, if the line is one of the two
/// recognized marker shapes.
pub open spec fn line_marker(line: Seq<char>) -> Option<Seq<char>> {
    if embed_marker(line) is Some {
        embed_marker(line)
    } else {
        command_marker(line)
    }
}

/// Position of the last `c` in `s`, or `-1` when there is none.
pub open spec fn last_index_of(s: Seq<char>, c: char) -> int
    decreases s.len(),
{
    if s.len() == 0 {
        -1
    } else if s.last() == c {
        s.len() - 1
    } else {
        last_index_of(s.subrange(0, s.len() - 1), c)
    }
}

proof fn lemma_last_index_some(s: Seq<char>, c: char, i: int)
    requires
        0 <= i < s.len(),
        s[i] == c,
        forall|k: int| i < k < s.len() ==> s[k] != c,
    ensures
        last_index_of(s, c) == i,
    decreases s.len(),
{
    if i == s.len() - 1 {
    } else {
        let t = s.subrange(0, s.len() - 1);
        assert(s.last() != c);
        assert(t[i] == c);
        assert(forall|k: int| i < k < t.len() ==> t[k] == s[k]);
        lemma_last_index_some(t, c, i);
    }
}

proof fn lemma_last_index_none(s: Seq<char>, c: char)
    requires
        forall|k: int| 0 <= k < s.len() ==> s[k] != c,
    ensures
        last_index_of(s, c) == -1,
    decreases s.len(),
{
    if s.len() > 0 {
        let t = s.subrange(0, s.len() - 1);
        assert(forall|k: int| 0 <= k < t.len() ==> t[k] == s[k]);
        lemma_last_index_none(t, c);
    }
}

/// The path with any directory prefix shed: what follows the last slash.
pub open spec fn spec_strip_dir(p: Seq<char>) -> Seq<char> {
    p.subrange(last_index_of(p, '/') + 1, p.len() as int)
}

/// The name with a trailing `.ext` shed, when it carries one.
pub open spec fn spec_strip_ext(name: Seq<char>, ext: Seq<char>) -> Seq<char> {
    let suffix = seq!['.'] + ext;
    if spec_ends_with(name, suffix) {
        name.subrange(0, name.len() - suffix.len())
    } else {
        name
    }
}

/// A marker path's base name: directory prefix and media extension shed.
pub open spec fn spec_base_name(p: Seq<char>, ext: Seq<char>) -> Seq<char> {
    spec_strip_ext(spec_strip_dir(p), ext)
}

/// The entry one marker path yields.
pub open spec fn spec_file_of(dir: Seq<char>, p: Seq<char>, ext: Seq<char>) -> CorrelatedFileView {
    CorrelatedFileView {
        absolute_path: dir + seq!['/'] + p,
        base_name: spec_base_name(p, ext),
        media_extension: ext,
    }
}

/// The entries the marker lines of `lines` yield, in order of appearance.
pub open spec fn spec_files_of_lines(
    lines: Seq<Seq<char>>,
    ext: Seq<char>,
    dir: Seq<char>,
) -> Seq<CorrelatedFileView>
    decreases lines.len(),
{
    if lines.len() == 0 {
        Seq::empty()
    } else {
        let rest = spec_files_of_lines(lines.subrange(1, lines.len() as int), ext, dir);
        match line_marker(lines[0]) {
            Some(p) => seq![spec_file_of(dir, p, ext)] + rest,
            None => rest,
        }
    }
}

/// What correlation of a whole run log yields, before the on-disk
/// existence check.
pub open spec fn spec_correlate(log: Seq<char>, ext: Seq<char>, dir: Seq<char>) -> Seq<
    CorrelatedFileView,
> {
    spec_files_of_lines(spec_lines(log), ext, dir)
}

/// The log as lines.
pub fn split_lines(log: &str) -> (lines: Vec<String>)
    ensures
        lines.deep_view() == spec_lines(log@),
{
    let raw = split_on_char(log, '\n');
    let mut lines: Vec<String> = Vec::new();
    let mut i: usize = 0;
    proof {
        assert(lines.deep_view() =~= raw.deep_view().map_values(
            |l: Seq<char>| spec_clean_line(l),
        ).subrange(0, 0));
    }
    while i < raw.len()
        invariant
            i <= raw.len(),
            raw.deep_view() == spec_split(log@, '\n'),
            lines.deep_view() == raw.deep_view().map_values(
                |l: Seq<char>| spec_clean_line(l),
            ).subrange(0, i as int),
        decreases raw.len() - i,
    {
        let line = &raw[i];
        let n = line.as_str().unicode_len();
        let ghost before = lines.deep_view();
        if n > 0 && line.as_str().get_char(n - 1) == '\r' {
            let cleaned = copy_range(line.as_str(), 0, n - 1);
            lines.push(cleaned);
        } else {
            lines.push(line.clone());
        }
        proof {
            let m = raw.deep_view().map_values(|l: Seq<char>| spec_clean_line(l));
            assert(lines.deep_view() =~= before.push(spec_clean_line(raw.deep_view()[i as int])));
            assert(m[i as int] == spec_clean_line(raw.deep_view()[i as int]));
            assert(lines.deep_view() =~= m.subrange(0, i + 1));
        }
        i += 1;
    }
    proof {
        let m = raw.deep_view().map_values(|l: Seq<char>| spec_clean_line(l));
        assert(lines.deep_view() =~= m.subrange(0, m.len() as int));
        assert(m.subrange(0, m.len() as int) =~= m);
    }
    lines
}

/// The output path a log line names, if the line is a recognized marker.
pub fn extract_marker(line: &str) -> (r: Option<String>)
    ensures
        r.deep_view() == line_marker(line@),
{
    let n = line.unicode_len();
    proof {
        reveal_strlit("[EmbedThumbnail] Adding thumbnail to \"");
        reveal_strlit("[Exec] Executing command: ");
        if spec_starts_with(line@, embed_marker_prefix()) && spec_starts_with(
            line@,
            command_marker_prefix(),
        ) {
            assert(line@.subrange(0, embed_marker_prefix().len() as int)[2] == line@[2]);
            assert(line@.subrange(0, command_marker_prefix().len() as int)[2] == line@[2]);
            assert(false);
        }
    }
    if starts_with(line, "[EmbedThumbnail] Adding thumbnail to \"") {
        let pl = "[EmbedThumbnail] Adding thumbnail to \"".unicode_len();
        if n > pl && line.get_char(n - 1) == '"' {
            Some(copy_range(line, pl, n - 1))
        } else {
            None
        }
    } else if starts_with(line, "[Exec] Executing command: ") {
        let pl = "[Exec] Executing command: ".unicode_len();
        proof {
            lemma_find_from(line@, '\'', pl as int);
        }
        let q1 = find_char_from(line, '\'', pl);
        if q1 < n {
            proof {
                lemma_find_from(line@, '\'', q1 + 1 as int);
            }
            let q2 = find_char_from(line, '\'', q1 + 1);
            if q2 < n {
                Some(copy_range(line, q1 + 1, q2))
            } else {
                None
            }
        } else {
            None
        }
    } else {
        None
    }
}

/// The path with any directory prefix shed: what follows the last slash.
pub fn strip_dir(path: &str) -> (r: String)
    ensures
        r@ == spec_strip_dir(path@),
{
    let n = path.unicode_len();
    let start = match rfind_char(path, '/') {
        Some(i) => {
            proof {
                lemma_last_index_some(path@, '/', i as int);
            }
            i + 1
        },
        None => {
            proof {
                lemma_last_index_none(path@, '/');
            }
            0
        },
    };
    copy_range(path, start, n)
}

/// The base name of a marker path: directory prefix and `.ext` shed.
pub fn base_name_of(path: &str, ext: &str) -> (r: String)
    ensures
        r@ == spec_base_name(path@, ext@),
{
    let name = strip_dir(path);
    proof {
        reveal_strlit(".");
    }
    let suffix = ".".to_owned().concat(ext);
    assert(suffix@ =~= seq!['.'] + ext@);
    let nl = name.as_str().unicode_len();
    let sl = suffix.as_str().unicode_len();
    if ends_with(name.as_str(), suffix.as_str()) {
        let r = copy_range(name.as_str(), 0, nl - sl);
        assert(r@ =~= spec_base_name(path@, ext@));
        r
    } else {
        assert(name@ =~= spec_base_name(path@, ext@));
        name
    }
}

/// The absolute path of a marker path inside the target directory.
pub fn absolute_path_of(directory: &str, path: &str) -> (r: String)
    ensures
        r@ == directory@ + seq!['/'] + path@,
{
    proof {
        reveal_strlit("/");
    }
    let mut r = directory.to_owned();
    r.append("/");
    r.append(path);
    assert(r@ =~= directory@ + seq!['/'] + path@);
    r
}

/// Correlate a run log: one entry per recognized marker line, in order of
/// appearance, each carrying the absolute path, the base name, and the
/// media extension. Whether each file exists on disk is checked separately
/// by [`retain_existing`].
pub fn correlate(log: &str, ext: &str, directory: &str) -> (files: Vec<CorrelatedFile>)
    ensures
        files.deep_view() == spec_correlate(log@, ext@, directory@),
{
    let lines = split_lines(log);
    let mut files: Vec<CorrelatedFile> = Vec::new();
    let mut i: usize = 0;
    let ghost lv = lines.deep_view();
    proof {
        assert(files.deep_view() =~= Seq::<CorrelatedFileView>::empty());
        assert(lv.subrange(0, lv.len() as int) =~= lv);
    }
    while i < lines.len()
        invariant
            i <= lines.len(),
            lv == lines.deep_view(),
            spec_correlate(log@, ext@, directory@) == files.deep_view() + spec_files_of_lines(
                lv.subrange(i as int, lv.len() as int),
                ext@,
                directory@,
            ),
        decreases lines.len() - i,
    {
        let ghost rest = lv.subrange(i as int, lv.len() as int);
        proof {
            assert(rest[0] == lv[i as int]);
            assert(rest.subrange(1, rest.len() as int) =~= lv.subrange(
                i + 1,
                lv.len() as int,
            ));
        }
        let line = &lines[i];
        let ghost before = files.deep_view();
        match extract_marker(line.as_str()) {
            Some(path) => {
                let f = CorrelatedFile {
                    absolute_path: absolute_path_of(directory, path.as_str()),
                    base_name: base_name_of(path.as_str(), ext),
                    media_extension: ext.to_owned(),
                };
                files.push(f);
                proof {
                    assert(files.deep_view() =~= before.push(
                        spec_file_of(directory@, path@, ext@),
                    ));
                    assert(files.deep_view() + spec_files_of_lines(
                        lv.subrange(i + 1, lv.len() as int),
                        ext@,
                        directory@,
                    ) =~= before + spec_files_of_lines(rest, ext@, directory@));
                }
            },
            None => {
                proof {
                    assert(files.deep_view() + spec_files_of_lines(
                        lv.subrange(i + 1, lv.len() as int),
                        ext@,
                        directory@,
                    ) =~= before + spec_files_of_lines(rest, ext@, directory@));
                }
            },
        }
        i += 1;
    }
    proof {
        assert(lv.subrange(lv.len() as int, lv.len() as int) =~= Seq::<Seq<char>>::empty());
        assert(files.deep_view() + Seq::<CorrelatedFileView>::empty() =~= files.deep_view());
    }
    files
}

/// The entries whose existence flag is set, in their original order.
pub open spec fn spec_retain(
    files: Seq<CorrelatedFileView>,
    on_disk: Seq<bool>,
) -> Seq<CorrelatedFileView>
    decreases files.len(),
{
    if files.len() == 0 {
        Seq::empty()
    } else {
        let rest = spec_retain(
            files.subrange(1, files.len() as int),
            on_disk.subrange(1, on_disk.len() as int),
        );
        if on_disk[0] {
            seq![files[0]] + rest
        } else {
            rest
        }
    }
}

/// Keep the correlated files whose existence flag is set; a marker whose
/// file is absent on disk yields no entry, and the batch goes on.
pub fn retain_existing(files: Vec<CorrelatedFile>, on_disk: &Vec<bool>) -> (kept: Vec<
    CorrelatedFile,
>)
    requires
        files@.len() == on_disk@.len(),
    ensures
        kept.deep_view() == spec_retain(files.deep_view(), on_disk@),
{
    let mut files = files;
    let mut kept: Vec<CorrelatedFile> = Vec::new();
    let mut i: usize = 0;
    let total = on_disk.len();
    let ghost fv = files.deep_view();
    let ghost flags = on_disk@;
    proof {
        assert(kept.deep_view() =~= Seq::<CorrelatedFileView>::empty());
        assert(fv.subrange(0, fv.len() as int) =~= fv);
        assert(flags.subrange(0, flags.len() as int) =~= flags);
    }
    while files.len() > 0
        invariant
            i + files@.len() == flags.len(),
            i <= flags.len(),
            flags.len() == total,
            fv.len() == flags.len(),
            files.deep_view() == fv.subrange(i as int, fv.len() as int),
            flags == on_disk@,
            spec_retain(fv, flags) == kept.deep_view() + spec_retain(
                fv.subrange(i as int, fv.len() as int),
                flags.subrange(i as int, flags.len() as int),
            ),
        decreases files@.len(),
    {
        let ghost rest_f = fv.subrange(i as int, fv.len() as int);
        let ghost rest_b = flags.subrange(i as int, flags.len() as int);
        proof {
            assert(rest_f[0] == fv[i as int]);
            assert(rest_f.subrange(1, rest_f.len() as int) =~= fv.subrange(i + 1, fv.len() as int));
            assert(rest_b.subrange(1, rest_b.len() as int) =~= flags.subrange(
                i + 1,
                flags.len() as int,
            ));
        }
        let f = files.remove(0);
        proof {
            assert(files.deep_view() =~= fv.subrange(i + 1, fv.len() as int));
        }
        let ghost before = kept.deep_view();
        if on_disk[i] {
            kept.push(f);
            proof {
                assert(kept.deep_view() =~= before.push(fv[i as int]));
                assert(kept.deep_view() + spec_retain(
                    fv.subrange(i + 1, fv.len() as int),
                    flags.subrange(i + 1, flags.len() as int),
                ) =~= before + spec_retain(rest_f, rest_b));
            }
        } else {
            proof {
                assert(kept.deep_view() + spec_retain(
                    fv.subrange(i + 1, fv.len() as int),
                    flags.subrange(i + 1, flags.len() as int),
                ) =~= before + spec_retain(rest_f, rest_b));
            }
        }
        i += 1;
    }
    proof {
        assert(fv.subrange(fv.len() as int, fv.len() as int) =~= Seq::<CorrelatedFileView>::empty());
        assert(kept.deep_view() + spec_retain(
            Seq::<CorrelatedFileView>::empty(),
            flags.subrange(flags.len() as int, flags.len() as int),
        ) =~= kept.deep_view());
    }
    kept
}

/// Markers whose files all exist yield exactly as many entries as there
/// were markers, in log order: the existence filter keeps everything.
pub proof fn lemma_retain_all_existing(files: Seq<CorrelatedFileView>, on_disk: Seq<bool>)
    requires
        files.len() == on_disk.len(),
        forall|k: int| 0 <= k < on_disk.len() ==> on_disk[k],
    ensures
        spec_retain(files, on_disk) == files,
    decreases files.len(),
{
    if files.len() > 0 {
        let tf = files.subrange(1, files.len() as int);
        let tb = on_disk.subrange(1, on_disk.len() as int);
        lemma_retain_all_existing(tf, tb);
        assert(spec_retain(files, on_disk) =~= seq![files[0]] + tf);
        assert(seq![files[0]] + tf =~= files);
    }
}

} // verus!
