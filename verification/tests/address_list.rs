use etherscan_abi_downloader::read_addresses;

#[test]
fn one_address_to_a_line() {
    let list = b"0xaa\n0xbb\n0xcc\n";
    assert_eq!(read_addresses(list), ["0xaa", "0xbb", "0xcc"]);
}

#[test]
fn last_line_needs_no_newline() {
    assert_eq!(read_addresses(b"0xaa\n0xbb"), ["0xaa", "0xbb"]);
    assert_eq!(read_addresses(b"0xaa"), ["0xaa"]);
}

#[test]
fn empty_list_names_no_address() {
    assert!(read_addresses(b"").is_empty());
    assert!(read_addresses(b"\n").is_empty());
    assert!(read_addresses(b"\n\n\r\n").is_empty());
}

#[test]
fn carriage_return_before_the_newline_is_no_part_of_the_line() {
    assert_eq!(read_addresses(b"0xaa\r\n0xbb\r\n"), ["0xaa", "0xbb"]);
    // only the one that stands just before the newline
    assert_eq!(read_addresses(b"0xaa\r\r\n"), ["0xaa\r"]);
    assert_eq!(read_addresses(b"0x\raa\n"), ["0x\raa"]);
}

#[test]
fn carriage_return_at_the_end_of_the_list_is_kept() {
    assert_eq!(read_addresses(b"0xaa\n0xbb\r"), ["0xaa", "0xbb\r"]);
}

#[test]
fn blank_lines_are_passed_over() {
    let list = b"\n0xaa\n\n   \n\t\n0xbb\n \r\n";
    assert_eq!(read_addresses(list), ["0xaa", "0xbb"]);
}

#[test]
fn spaces_around_an_address_are_kept() {
    assert_eq!(read_addresses(b" 0xaa \n"), [" 0xaa "]);
}

#[test]
fn lines_that_are_no_text_are_passed_over() {
    let list = b"0xaa\n\xff\xfe\n0xbb\n\xc3\n";
    assert_eq!(read_addresses(list), ["0xaa", "0xbb"]);
    // a truncated character at the end of the list
    assert_eq!(read_addresses(b"0xaa\n\xe2\x82"), ["0xaa"]);
}

#[test]
fn text_that_is_not_ascii_is_decoded() {
    let list = "0xaa\né€😀\n".as_bytes();
    assert_eq!(read_addresses(list), ["0xaa", "é€😀"]);
}

#[test]
fn order_and_duplicates_are_kept() {
    assert_eq!(read_addresses(b"b\na\nb\n"), ["b", "a", "b"]);
}
