use frb_run::path::{unique_paths, FilePath};
use std::path::{Component, Path};

const SPELLINGS: [&str; 34] = [
    "", "/", "//", ".", "..", "./", "../", "/.", "/..", "a", "a/", "a//", "a/.", "a/..", "/a",
    "//a", "/./a", "./a", "./.", "././a", "../a", "a/b", "a//b", "a/./b", "a/b/.", "a/b/./",
    "a/../b", "/a/b.rs", ".hidden", "a/.hidden", "b.", "c.tar.gz", "..x", "...",
];

fn system_parts(text: &str) -> Vec<Vec<u8>> {
    Path::new(text)
        .components()
        .map(|part| match part {
            Component::RootDir => b"/".to_vec(),
            other => other.as_os_str().as_encoded_bytes().to_vec(),
        })
        .collect()
}

#[test]
fn parts_are_those_of_the_system() {
    for text in SPELLINGS {
        assert_eq!(FilePath::new(text).parts(), system_parts(text), "{text:?}");
    }
}

#[test]
fn names_and_extensions_are_those_of_the_system() {
    for text in SPELLINGS {
        let path = FilePath::new(text);
        let system = Path::new(text);
        let name = system.file_name().map(|n| n.to_str().unwrap().to_owned());
        assert_eq!(path.file_name(), name, "{text:?}");
        let extension = system.extension().map(|e| e.to_str().unwrap().to_owned());
        assert_eq!(path.extension(), extension, "{text:?}");
    }
}

#[test]
fn parents_are_those_of_the_system() {
    for text in SPELLINGS {
        let parent = FilePath::new(text).parent().map(|p| p.to_text());
        let system = Path::new(text).parent().map(|p| p.to_str().unwrap().to_owned());
        assert_eq!(parent, system, "{text:?}");
    }
}

#[test]
fn joining_is_that_of_the_system() {
    for text in SPELLINGS {
        for rest in ["lib", "Cargo.toml", "a/b", "/abs", "", ".."] {
            let joined = FilePath::new(text).join(rest).to_text();
            let system = Path::new(text).join(rest).to_str().unwrap().to_owned();
            assert_eq!(joined, system, "{text:?} {rest:?}");
        }
    }
}

#[test]
fn comparing_is_that_of_the_system() {
    for a in SPELLINGS {
        for b in SPELLINGS {
            let (x, y) = (FilePath::new(a), FilePath::new(b));
            let (p, q) = (Path::new(a), Path::new(b));
            assert_eq!(x.starts_with(&y), p.starts_with(q), "{a:?} {b:?}");
            assert_eq!(x.same_as(&y), p == q, "{a:?} {b:?}");
        }
    }
}

#[test]
fn joined_names_come_off_again() {
    let dir = FilePath::new("/proj/rust");
    let file = dir.join("build.rs");
    assert_eq!(file.file_name().as_deref(), Some("build.rs"));
    assert!(file.parent().unwrap().same_as(&dir));
    assert_eq!(file.parts().len(), dir.parts().len() + 1);
}

#[test]
fn bytes_that_are_not_text_are_told_apart() {
    let path = FilePath::from_bytes(b"/a/\xffb.txt".to_vec());
    assert_eq!(path.to_str(), None);
    assert_eq!(path.to_text(), "/a/\u{fffd}b.txt");
    assert_eq!(path.file_name(), None);
    assert_eq!(path.extension().as_deref(), Some("txt"));
    assert_eq!(path.as_bytes(), b"/a/\xffb.txt");
    let text = FilePath::new("/a/é");
    assert_eq!(text.to_str().as_deref(), Some("/a/é"));
    assert_eq!(text.to_text(), "/a/é");
}

#[test]
fn repetitions_are_dropped() {
    let paths: Vec<FilePath> = ["a/b", "c", "a//b/.", "c", "a"].map(FilePath::new).into();
    let kept: Vec<String> = unique_paths(&paths).iter().map(|p| p.to_text()).collect();
    assert_eq!(kept, ["a/b", "c", "a"]);
}

#[test]
fn windows_spells_paths_with_backslashes() {
    let path = FilePath::new("/a//b/é");
    assert_eq!(path.system_text(false).as_deref(), Some("/a//b/é"));
    assert_eq!(path.system_text(true).as_deref(), Some(r"\a\\b\é"));
    let none = FilePath::from_bytes(vec![0x2f, 0xff]);
    assert_eq!(none.system_text(false), None);
    assert_eq!(none.system_text(true), None);
}
