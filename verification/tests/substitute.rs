use somebuild::command::substitute;
use somebuild::strutil::{replace, str_ends_with, str_eq, trim};

#[test]
fn configure_and_staged_install() {
    assert_eq!(
        substitute("%configure && %make_install", "/tmp/out"),
        "./configure --prefix=/usr && make DESTDIR=/tmp/out install"
    );
}

#[test]
fn no_residual_recognized_tokens() {
    let r = substitute("%configure && %make && %make_install", "/tmp/out");
    assert!(!r.contains('%'));
}

#[test]
fn make_alone() {
    assert_eq!(substitute("%make", "/x"), "make");
}

#[test]
fn make_install_alone() {
    assert_eq!(substitute("%make_install", "/build/dest"), "make DESTDIR=/build/dest install");
}

#[test]
fn longer_token_wins_over_shorter_prefix() {
    // "%make_install" must not be clobbered into "make_install" by the
    // "%make" replacement.
    assert_eq!(substitute("%make %make_install", "/d"), "make make DESTDIR=/d install");
}

#[test]
fn unrecognized_tokens_pass_through_verbatim() {
    assert_eq!(substitute("%cmake --fancy", "/d"), "%cmake --fancy");
}

#[test]
fn surrounding_whitespace_is_trimmed() {
    assert_eq!(substitute("   %make  \n", "/d"), "make");
}

#[test]
fn plain_text_untouched() {
    assert_eq!(substitute("./autogen.sh", "/d"), "./autogen.sh");
}

#[test]
fn replace_basic() {
    assert_eq!(replace("abcabc", "b", "xy"), "axycaxyc");
    assert_eq!(replace("aaa", "aa", "b"), "ba");
    assert_eq!(replace("hello", "zz", "y"), "hello");
    assert_eq!(replace("hello", "", "y"), "hello");
}

#[test]
fn replacement_not_rescanned() {
    // The replacement text is emitted, not scanned again for the pattern.
    assert_eq!(replace("%x", "%x", "%x%x"), "%x%x");
}

#[test]
fn trim_basic() {
    assert_eq!(trim("  a b  "), "a b");
    assert_eq!(trim("\t\n x \r"), "x");
    assert_eq!(trim(""), "");
    assert_eq!(trim("   "), "");
    assert_eq!(trim("abc"), "abc");
}

#[test]
fn str_helpers() {
    assert!(str_ends_with("pkg.tar.gz", ".tar.gz"));
    assert!(!str_ends_with("gz", ".tar.gz"));
    assert!(str_eq("same", "same"));
    assert!(!str_eq("same", "Same"));
}
