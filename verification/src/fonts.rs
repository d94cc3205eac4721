//! Which of the system's fonts the popup uses: Microsoft YaHei for Chinese, Segoe UI after it.
use vstd::prelude::*;

verus! {

/// The font families of the popup.
#[derive(Clone, Copy, Debug, PartialEq, Eq, Structural)]
pub enum Family {
    Proportional,
    Monospace,
    Bold,
}

/// The files of a family, the preferred one first.
pub open spec fn files_of(family: Family) -> Seq<Seq<char>> {
    match family {
        Family::Proportional => seq!["msyh.ttc"@, "segoeui.ttf"@, "seguisym.ttf"@],
        Family::Monospace => seq!["msyh.ttc"@, "segoeui.ttf"@],
        Family::Bold => seq!["msyhbd.ttc"@, "segoeuib.ttf"@, "msyh.ttc"@],
    }
}

/// Lists the files of a family, the preferred one first.
pub fn font_files(family: Family) -> (files: Vec<String>)
    ensures
        files.deep_view() == files_of(family),
{
    let mut files: Vec<String> = Vec::new();
    match family {
        Family::Proportional => {
            files.push("msyh.ttc".to_owned());
            files.push("segoeui.ttf".to_owned());
            files.push("seguisym.ttf".to_owned());
        },
        Family::Monospace => {
            files.push("msyh.ttc".to_owned());
            files.push("segoeui.ttf".to_owned());
        },
        Family::Bold => {
            files.push("msyhbd.ttc".to_owned());
            files.push("segoeuib.ttf".to_owned());
            files.push("msyh.ttc".to_owned());
        },
    }
    assert(files.deep_view() == files_of(family));
    files
}

/// A font file, and whether it could be read.
pub struct FontFile {
    pub name: String,
    pub readable: bool,
}

/// The names of the files that could be read, in their order.
pub open spec fn readable_names(files: Seq<FontFile>) -> Seq<Seq<char>>
    decreases files.len(),
{
    if files.len() == 0 {
        Seq::empty()
    } else {
        let before = readable_names(files.drop_last());
        if files.last().readable {
            before.push(files.last().name@)
        } else {
            before
        }
    }
}

/// The fonts that make up a family: the files that could be read, in their order.
pub fn family_names(files: &Vec<FontFile>) -> (names: Vec<String>)
    ensures
        names.deep_view() == readable_names(files@),
{
    let mut names: Vec<String> = Vec::new();
    let mut i: usize = 0;
    assert(names.deep_view() == readable_names(files@.take(0)));
    while i < files.len()
        invariant
            i <= files@.len(),
            names.deep_view() == readable_names(files@.take(i as int)),
        decreases files@.len() - i,
    {
        assert(files@.take(i + 1).drop_last() == files@.take(i as int));
        if files[i].readable {
            let ghost before = names.deep_view();
            names.push(files[i].name.clone());
            assert(names.deep_view() == before.push(files@[i as int].name@));
        }
        i = i + 1;
    }
    assert(files@.take(files@.len() as int) == files@);
    names
}

/// A family misses no font that could be read and names none that could not.
pub proof fn law_family_is_what_is_readable(files: Seq<FontFile>, name: Seq<char>)
    ensures
        readable_names(files).contains(name) <==> exists|i: int|
            0 <= i < files.len() && (#[trigger] files[i]).readable && files[i].name@ == name,
    decreases files.len(),
{
    if files.len() > 0 {
        let head = files.drop_last();
        let before = readable_names(head);
        let after = readable_names(files);
        law_family_is_what_is_readable(head, name);
        if after.contains(name) {
            let j = choose|j: int| 0 <= j < after.len() && after[j] == name;
            if j < before.len() {
                assert(before[j] == name);
                let i = choose|i: int|
                    0 <= i < head.len() && (#[trigger] head[i]).readable && head[i].name@ == name;
                assert(files[i] == head[i]);
            } else {
                assert(files[files.len() - 1].readable);
            }
        }
        if exists|i: int|
            0 <= i < files.len() && (#[trigger] files[i]).readable && files[i].name@ == name {
            let i = choose|i: int|
                0 <= i < files.len() && (#[trigger] files[i]).readable && files[i].name@ == name;
            if i < head.len() {
                assert(head[i] == files[i]);
                let j = choose|j: int| 0 <= j < before.len() && before[j] == name;
                assert(after[j] == name);
            } else {
                assert(after[before.len() as int] == name);
            }
        }
    }
}

/// The system's directory, in which the `Fonts` directory lies: what the environment says, or
/// the usual place.
pub fn windows_dir(from_environment: Option<String>) -> (dir: String)
    ensures
        dir@ == (match from_environment {
            Some(d) => d@,
            None => "C:\\Windows"@,
        }),
{
    match from_environment {
        Some(d) => d,
        None => "C:\\Windows".to_owned(),
    }
}

// ---------- what the functions give, for every input ----------

proof fn lemma_readable_concat(a: Seq<FontFile>, b: Seq<FontFile>)
    ensures
        readable_names(a + b) == readable_names(a) + readable_names(b),
    decreases b.len(),
{
    if b.len() == 0 {
        assert(a + b == a);
        assert(readable_names(a) + readable_names(b) == readable_names(a));
    } else {
        lemma_readable_concat(a, b.drop_last());
        assert((a + b).drop_last() == a + b.drop_last());
        assert((a + b).last() == b.last());
        assert(readable_names(a + b) == readable_names(a) + readable_names(b));
    }
}

/// A single file makes up the family if it could be read, whatever its name; else the family is
/// empty.
pub proof fn law_family_of_one_file(files: Vec<FontFile>, names: Vec<String>)
    requires
        call_ensures(family_names, (&files,), names),
        files@.len() == 1,
    ensures
        files@[0].readable ==> names.deep_view() == seq![files@[0].name@],
        !files@[0].readable ==> names.deep_view() == Seq::<Seq<char>>::empty(),
{
    assert(files@.drop_last() == Seq::<FontFile>::empty());
    assert(readable_names(files@.drop_last()) == Seq::<Seq<char>>::empty());
}

/// The family of two lists in a row is that of the one, then that of the other: the order of the
/// files is kept.
pub proof fn law_family_concat(
    a: Vec<FontFile>,
    b: Vec<FontFile>,
    whole: Vec<FontFile>,
    of_a: Vec<String>,
    of_b: Vec<String>,
    of_whole: Vec<String>,
)
    requires
        call_ensures(family_names, (&a,), of_a),
        call_ensures(family_names, (&b,), of_b),
        call_ensures(family_names, (&whole,), of_whole),
        whole@ == a@ + b@,
    ensures
        of_whole.deep_view() == of_a.deep_view() + of_b.deep_view(),
{
    lemma_readable_concat(a@, b@);
}

/// Every family has Microsoft YaHei, and a font of Segoe UI after the font it prefers.
pub proof fn law_families(family: Family, files: Vec<String>)
    requires
        call_ensures(font_files, (family,), files),
    ensures
        files.deep_view().contains("msyh.ttc"@),
        family is Proportional ==> files.deep_view() == seq![
            "msyh.ttc"@,
            "segoeui.ttf"@,
            "seguisym.ttf"@,
        ],
        family is Monospace ==> files.deep_view() == seq!["msyh.ttc"@, "segoeui.ttf"@],
        family is Bold ==> files.deep_view() == seq![
            "msyhbd.ttc"@,
            "segoeuib.ttf"@,
            "msyh.ttc"@,
        ],
{
    let v = files.deep_view();
    if family is Bold {
        assert(v[2] == "msyh.ttc"@);
    } else {
        assert(v[0] == "msyh.ttc"@);
    }
}

/// What the environment says is taken as it is; the usual place only stands in for nothing.
pub proof fn law_windows_dir(from_environment: Option<String>, dir: String)
    requires
        call_ensures(windows_dir, (from_environment,), dir),
    ensures
        from_environment is Some ==> dir@ == from_environment->0@,
        from_environment is None ==> dir@ == "C:\\Windows"@,
{
}

} // verus!
