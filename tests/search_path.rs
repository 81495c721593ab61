use std::path::{Path, PathBuf};

use hsa_runtime::search_path::{expand_dynamic_tokens, DynamicTokens};

fn tokens() -> DynamicTokens {
    let exe = Path::new("/proc/self/exe").read_link().expect("/proc/self/exe");
    let origin = exe.parent().unwrap().to_str().unwrap().as_bytes().to_vec();
    DynamicTokens::new(origin, b"x86_64".to_vec(), usize::BITS)
}

fn expand(paths: &[&str]) -> Vec<String> {
    let paths: Vec<Vec<u8>> = paths.iter().map(|p| p.as_bytes().to_vec()).collect();
    expand_dynamic_tokens(&paths, &tokens())
        .into_iter()
        .map(|p| String::from_utf8(p).expect("should always be utf8"))
        .collect()
}

#[test]
fn origin() {
    let expanded = expand(&["$ORIGIN", "${ORIGIN}"]);
    for expanded in expanded.iter() {
        let expanded = PathBuf::from(expanded);
        assert!(expanded.exists() && expanded.is_dir());
    }
}

#[test]
fn not_origin() {
    let paths = ["$ORIGIN_NOT", "${ORIGIN_NOT}"];
    let expanded = expand(&paths);
    for (expanded, input) in expanded.iter().zip(paths.iter()) {
        assert_eq!(expanded, input);
    }
}

#[test]
fn unknown_var() {
    let paths = ["$UNKNOWN_VAR0123456789/../lib", "${UNKNOWN_VAR0123456789}/../lib"];
    let expanded = expand(&paths);
    for (expanded, input) in expanded.iter().zip(paths.iter()) {
        assert_eq!(expanded, input);
    }
}

#[test]
fn lib() {
    let expanded = expand(&["$LIB", "${LIB}"]);
    for expanded in expanded.iter() {
        assert!(!expanded.contains("LIB"));
    }
}

#[test]
fn platform() {
    let expanded = expand(&["$PLATFORM", "${PLATFORM}"]);
    for expanded in expanded.iter() {
        assert!(!expanded.contains("PLATFORM"));
    }
}

#[test]
fn multiple() {
    let expanded = expand(&["$ORIGIN/../${LIB}"]);
    for expanded in expanded.iter() {
        assert!(!expanded.contains("$"));
        assert!(!expanded.contains("ORIGIN"));
        assert!(!expanded.contains("LIB"));
        assert!(expanded.contains("/../"));
    }
}

#[test]
fn prefix() {
    let expanded = expand(&["/usr/${LIB}"]);
    for expanded in expanded.iter() {
        assert!(!expanded.contains("$"));
        assert!(!expanded.contains("LIB"));
        assert!(expanded.starts_with("/usr/"));
    }
}

fn fixed_tokens(pointer_width: u32) -> DynamicTokens {
    DynamicTokens::new(b"/opt/app/bin".to_vec(), b"x86_64".to_vec(), pointer_width)
}

fn expand_one(path: &str, pointer_width: u32) -> String {
    let out = fixed_tokens(pointer_width).expand_path(&path.as_bytes().to_vec());
    String::from_utf8(out).unwrap()
}

#[test]
fn expands_each_known_token_exactly() {
    assert_eq!(expand_one("$ORIGIN/../lib", 64), "/opt/app/bin/../lib");
    assert_eq!(expand_one("/usr/${LIB}/x", 64), "/usr/lib64/x");
    assert_eq!(expand_one("/usr/$LIB", 32), "/usr/lib");
    assert_eq!(expand_one("/p/${PLATFORM}/q", 64), "/p/x86_64/q");
}

#[test]
fn path_without_token_is_unchanged() {
    assert_eq!(expand_one("/usr/lib/x86_64-linux-gnu", 64), "/usr/lib/x86_64-linux-gnu");
    assert_eq!(expand_one("", 64), "");
}

#[test]
fn bare_name_stops_at_first_non_name_byte() {
    assert_eq!(expand_one("$ORIGIN-x", 64), "/opt/app/bin-x");
    assert_eq!(expand_one("$ORIGINX", 64), "$ORIGINX");
}

#[test]
fn unclosed_brace_takes_rest_as_name() {
    assert_eq!(expand_one("${ORIGIN", 64), "/opt/app/bin");
    assert_eq!(expand_one("${ORIGIN/x", 64), "${ORIGIN/x");
}

#[test]
fn empty_segment_ends_expansion() {
    assert_eq!(expand_one("/a$", 64), "/a");
    assert_eq!(expand_one("/a$$LIB", 64), "/a");
}

#[test]
fn several_tokens_in_one_path() {
    assert_eq!(expand_one("$ORIGIN/${LIB}/$PLATFORM", 64), "/opt/app/bin/lib64/x86_64");
}

#[test]
fn batch_keeps_order() {
    let paths = vec![b"$LIB".to_vec(), b"/x".to_vec(), b"${ORIGIN}".to_vec()];
    let out = expand_dynamic_tokens(&paths, &fixed_tokens(64));
    assert_eq!(out, vec![b"lib64".to_vec(), b"/x".to_vec(), b"/opt/app/bin".to_vec()]);
}
