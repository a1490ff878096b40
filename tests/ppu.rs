use dam4nes::hardware::ppu::Tile;

#[test]
fn test_tile() {
    let tile_data: [u8; 16] = [
        0x41, 0xC2, 0x44, 0x48, 0x10, 0x20, 0x40, 0x80, 0x01, 0x02, 0x04, 0x08, 0x16, 0x21, 0x42, 0x87,
    ];
    let tile = Tile::from_pattern_table_slice(&tile_data).unwrap();
    let Tile(tile_matrix) = tile;
    assert_eq!(
        tile_matrix,
        [
            [0, 1, 0, 0, 0, 0, 0, 3],
            [1, 1, 0, 0, 0, 0, 3, 0],
            [0, 1, 0, 0, 0, 3, 0, 0],
            [0, 1, 0, 0, 3, 0, 0, 0],
            [0, 0, 0, 3, 0, 2, 2, 0],
            [0, 0, 3, 0, 0, 0, 0, 2],
            [0, 3, 0, 0, 0, 0, 2, 0],
            [3, 0, 0, 0, 0, 2, 2, 2],
        ]
    );
}
