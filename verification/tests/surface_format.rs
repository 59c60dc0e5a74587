use hydra::context::swapchain_format_index;

#[test]
fn format_prefers_first_srgb() {
    let flags = vec![false, true, true, false];
    assert_eq!(swapchain_format_index(&flags), 1);
}

#[test]
fn format_falls_back_to_first() {
    let flags = vec![false, false, false];
    assert_eq!(swapchain_format_index(&flags), 0);
}

#[test]
fn format_single_entry() {
    assert_eq!(swapchain_format_index(&vec![true]), 0);
    assert_eq!(swapchain_format_index(&vec![false]), 0);
}
