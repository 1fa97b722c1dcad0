use android_native_surface::texture::{texture_data, texture_size_fits};

#[test]
fn gradient_values_follow_the_index_product() {
    let rows = texture_data(3, 4);
    assert_eq!(rows, vec![vec![0, 0, 0, 0], vec![0, 1, 2, 3], vec![0, 2, 4, 6]]);
}

#[test]
fn gradient_wraps_modulo_255() {
    let rows = texture_data(300, 300);
    assert_eq!(rows.len(), 300);
    assert!(rows.iter().all(|row| row.len() == 300));
    assert_eq!(rows[15][17], 0); // 255 % 255
    assert_eq!(rows[16][16], 1); // 256 % 255
    assert_eq!(rows[299][299], (299u32 * 299 % 255) as u8);
    assert_eq!(rows[299][299], 151);
}

#[test]
fn gradient_never_holds_255() {
    let rows = texture_data(300, 300);
    assert!(rows.iter().all(|row| row.iter().all(|&b| b < 255)));
}

#[test]
fn square_gradient_is_symmetric() {
    let rows = texture_data(120, 120);
    for i in 0..120 {
        for j in 0..120 {
            assert_eq!(rows[i][j], rows[j][i]);
        }
    }
    let wide = texture_data(5, 9);
    let tall = texture_data(9, 5);
    for i in 0..5 {
        for j in 0..9 {
            assert_eq!(wide[i][j], tall[j][i]);
        }
    }
}

#[test]
fn empty_gradients() {
    assert!(texture_data(0, 7).is_empty());
    assert_eq!(texture_data(3, 0), vec![Vec::<u8>::new(), Vec::new(), Vec::new()]);
    assert!(texture_data(0, 0).is_empty());
}

#[test]
fn size_check_matches_32_bit_products() {
    assert!(texture_size_fits(0, u32::MAX));
    assert!(texture_size_fits(u32::MAX, 1));
    assert!(texture_size_fits(1000, 1000));
    assert!(texture_size_fits(65536, 65537));
    assert!(!texture_size_fits(65537, 65538));
    assert!(!texture_size_fits(u32::MAX, u32::MAX));
}
