use soveu_kernel::vga::{VgaCell, CELLS, HEIGHT, TEXT_COLOR, VGA, VGA_BUFFER_ADDRESS, WIDTH};

fn bottom_row(v: &VGA) -> Vec<u8> {
    v.cells()[(HEIGHT - 1) * WIDTH..].iter().map(|c| c.character).collect()
}

#[test]
fn new_console_is_blank() {
    let v = VGA::new();
    assert_eq!(v.column(), 0);
    assert_eq!(v.cells().len(), CELLS);
    assert!(v.cells().iter().all(|c| *c == VgaCell { character: 0, color: 0 }));
    assert_eq!(VGA_BUFFER_ADDRESS, 0xB8000);
}

#[test]
fn prints_on_bottom_row() {
    let mut v = VGA::new();
    v.print(b"HI");
    assert_eq!(v.column(), 2);
    let row = bottom_row(&v);
    assert_eq!(&row[..3], &[b'H', b'I', 0]);
    assert_eq!(v.cells()[(HEIGHT - 1) * WIDTH].color, TEXT_COLOR);
    // nothing above the bottom row changed
    assert!(v.cells()[..(HEIGHT - 1) * WIDTH].iter().all(|c| c.character == 0));
}

#[test]
fn newline_scrolls() {
    let mut v = VGA::new();
    v.print(b"AB\nC");
    assert_eq!(v.column(), 1);
    let row23: Vec<u8> = v.cells()[(HEIGHT - 2) * WIDTH..(HEIGHT - 1) * WIDTH]
        .iter()
        .map(|c| c.character)
        .collect();
    assert_eq!(&row23[..2], b"AB");
    assert_eq!(&bottom_row(&v)[..2], &[b'C', 0]);
}

#[test]
fn unprintable_shows_as_a() {
    let mut v = VGA::new();
    v.print(&[0x07, 0x7F, 0xFF]);
    assert_eq!(&bottom_row(&v)[..3], b"AAA");
    assert_eq!(v.column(), 3);
}

#[test]
fn full_row_wraps() {
    let mut v = VGA::new();
    let line = vec![b'x'; WIDTH];
    v.print(&line);
    assert_eq!(v.column(), WIDTH);
    v.print(b"y");
    assert_eq!(v.column(), 1);
    assert_eq!(bottom_row(&v)[0], b'y');
    let row23: Vec<u8> = v.cells()[(HEIGHT - 2) * WIDTH..(HEIGHT - 1) * WIDTH]
        .iter()
        .map(|c| c.character)
        .collect();
    assert_eq!(row23, line);
}

#[test]
fn printing_in_pieces_is_printing_at_once() {
    let mut a = VGA::new();
    a.print(b"hello\nwor");
    a.print(b"ld\x01!");
    let mut b = VGA::new();
    b.print(b"hello\nworld\x01!");
    assert_eq!(a.column(), b.column());
    assert_eq!(a.cells(), b.cells());
}

#[test]
fn starts_from_found_screen() {
    let mut cells = vec![VgaCell { character: b'.', color: 7 }; CELLS];
    cells[0] = VgaCell { character: b'T', color: 7 };
    let mut v = VGA::from_cells(cells);
    v.print(b"\n");
    // the top row scrolled away, the bottom row is blank
    assert_eq!(v.cells()[0].character, b'.');
    assert!(v.cells()[(HEIGHT - 1) * WIDTH..].iter().all(|c| c.character == 0 && c.color == 0));
}
