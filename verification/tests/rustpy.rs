use python_wasi_reactor::rustpy::reverse;

#[test]
fn reverse_ascii() {
    assert_eq!(reverse("hello".to_string()), "olleh");
}

#[test]
fn reverse_empty() {
    assert_eq!(reverse(String::new()), "");
}

#[test]
fn reverse_keeps_multibyte_chars_whole() {
    assert_eq!(reverse("aé€😀".to_string()), "😀€éa");
}

#[test]
fn reverse_twice_gives_back_the_input() {
    let s = "Python WASI reactor ✓".to_string();
    assert_eq!(reverse(reverse(s.clone())), s);
}
