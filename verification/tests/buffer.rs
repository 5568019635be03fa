use pixel_canvas::buffer::{get_linear_index, PixelBuffer};
use pixel_canvas::error::CanvasError;
use pixel_canvas::pixel::Pixel;

fn grey(level: u8) -> Pixel {
    Pixel::new(level, level, level)
}

#[test]
fn pixel_new_keeps_channels() {
    let p = Pixel::new(1, 2, 3);
    assert_eq!(p.red, 1);
    assert_eq!(p.green, 2);
    assert_eq!(p.blue, 3);
    assert_eq!(Pixel::black(), Pixel { red: 0, green: 0, blue: 0 });
}

#[test]
fn inverted_subtracts_each_channel_from_255() {
    assert_eq!(Pixel::new(10, 20, 30).inverted(), Pixel::new(245, 235, 225));
    assert_eq!(Pixel::new(0, 255, 128).inverted(), Pixel::new(255, 0, 127));
}

#[test]
fn inverted_twice_is_identity_for_every_level() {
    for level in 0..=255u8 {
        let p = Pixel::new(level, 255 - level, level / 2);
        assert_eq!(p.inverted().inverted(), p);
    }
}

#[test]
fn linear_index_is_row_major() {
    assert_eq!(get_linear_index(2, 3, 10), 32);
    assert_eq!(get_linear_index(0, 0, 7), 0);
    assert_eq!(get_linear_index(6, 0, 7), 6);
    assert_eq!(get_linear_index(0, 1, 7), 7);
}

#[test]
fn create_holds_width_times_height_pixels() {
    for (w, h) in [(1u32, 1u32), (3, 5), (5, 3), (1, 9), (16, 16)] {
        let b = PixelBuffer::create(w, h, grey(7)).unwrap();
        assert_eq!(b.width(), w);
        assert_eq!(b.height(), h);
        assert_eq!(b.pixels().len(), (w * h) as usize);
        assert!(b.pixels().iter().all(|p| *p == grey(7)));
    }
}

#[test]
fn create_refuses_zero_dimensions() {
    assert_eq!(PixelBuffer::create(0, 5, grey(0)).err(), Some(CanvasError::InvalidDimension));
    assert_eq!(PixelBuffer::create(5, 0, grey(0)).err(), Some(CanvasError::InvalidDimension));
    assert_eq!(PixelBuffer::create(0, 0, grey(0)).err(), Some(CanvasError::InvalidDimension));
}

#[test]
fn set_then_get_gives_the_pixel_written() {
    let mut b = PixelBuffer::create(4, 3, grey(0)).unwrap();
    for y in 0..3u32 {
        for x in 0..4u32 {
            let p = Pixel::new(x as u8, y as u8, 99);
            assert_eq!(b.set(x, y, p), Ok(()));
            assert_eq!(b.get(x, y), Ok(p));
        }
    }
}

#[test]
fn set_writes_the_row_major_position_only() {
    let mut b = PixelBuffer::create(4, 3, grey(0)).unwrap();
    b.set(1, 2, grey(200)).unwrap();
    for (i, p) in b.pixels().iter().enumerate() {
        if i == 2 * 4 + 1 {
            assert_eq!(*p, grey(200));
        } else {
            assert_eq!(*p, grey(0));
        }
    }
}

#[test]
fn get_outside_the_buffer_is_out_of_bounds() {
    let b = PixelBuffer::create(4, 3, grey(0)).unwrap();
    assert_eq!(b.get(4, 0), Err(CanvasError::OutOfBounds));
    assert_eq!(b.get(0, 3), Err(CanvasError::OutOfBounds));
    assert_eq!(b.get(u32::MAX, u32::MAX), Err(CanvasError::OutOfBounds));
    assert_eq!(b.get(3, 2), Ok(grey(0)));
}

#[test]
fn set_outside_the_buffer_changes_nothing() {
    let mut b = PixelBuffer::create(4, 3, grey(5)).unwrap();
    assert_eq!(b.set(4, 1, grey(9)), Err(CanvasError::OutOfBounds));
    assert_eq!(b.set(1, 3, grey(9)), Err(CanvasError::OutOfBounds));
    assert!(b.pixels().iter().all(|p| *p == grey(5)));
    assert_eq!(b.pixels().len(), 12);
}

#[test]
fn toggle_inverts_one_pixel() {
    let mut b = PixelBuffer::create(3, 3, Pixel::new(10, 20, 30)).unwrap();
    assert_eq!(b.toggle(2, 1), Ok(()));
    assert_eq!(b.get(2, 1), Ok(Pixel::new(245, 235, 225)));
    assert_eq!(b.get(1, 2), Ok(Pixel::new(10, 20, 30)));
    assert_eq!(b.toggle(3, 1), Err(CanvasError::OutOfBounds));
}

#[test]
fn toggle_twice_restores_the_buffer() {
    let mut b = PixelBuffer::gradient(6, 4).unwrap();
    let before: Vec<Pixel> = b.pixels().clone();
    for y in 0..4u32 {
        for x in 0..6u32 {
            b.toggle(x, y).unwrap();
            assert_ne!(*b.pixels(), before);
            b.toggle(x, y).unwrap();
            assert_eq!(*b.pixels(), before);
        }
    }
}

#[test]
fn rgba_bytes_are_four_per_pixel_with_opaque_alpha() {
    let mut b = PixelBuffer::create(2, 2, Pixel::new(1, 2, 3)).unwrap();
    b.set(1, 0, Pixel::new(4, 5, 6)).unwrap();
    b.set(0, 1, Pixel::new(7, 8, 9)).unwrap();
    assert_eq!(
        b.to_rgba_bytes(),
        vec![1, 2, 3, 255, 4, 5, 6, 255, 7, 8, 9, 255, 1, 2, 3, 255]
    );
}

#[test]
fn rgba_bytes_length_is_four_times_the_pixel_count() {
    let b = PixelBuffer::create(7, 5, grey(0)).unwrap();
    let bytes = b.to_rgba_bytes();
    assert_eq!(bytes.len(), 7 * 5 * 4);
    assert!(bytes.chunks(4).all(|c| c[3] == 255));
}

#[test]
fn randomize_keeps_the_dimensions() {
    let mut b = PixelBuffer::create(100, 100, grey(0)).unwrap();
    b.randomize();
    assert_eq!(b.width(), 100);
    assert_eq!(b.height(), 100);
    assert_eq!(b.pixels().len(), 10000);
}

#[test]
fn randomize_draws_new_colours() {
    let mut b = PixelBuffer::create(100, 100, grey(0)).unwrap();
    b.randomize();
    assert!(b.pixels().iter().any(|p| *p != grey(0)));
    let first = b.pixels()[0];
    assert!(b.pixels().iter().any(|p| *p != first));
}

#[test]
fn gradient_grows_red_rightwards_and_green_downwards() {
    let b = PixelBuffer::gradient(4, 2).unwrap();
    assert_eq!(b.get(0, 0), Ok(Pixel::new(0, 0, 128)));
    assert_eq!(b.get(1, 0), Ok(Pixel::new(63, 0, 128)));
    assert_eq!(b.get(2, 0), Ok(Pixel::new(127, 0, 128)));
    assert_eq!(b.get(3, 0), Ok(Pixel::new(191, 0, 128)));
    assert_eq!(b.get(0, 1), Ok(Pixel::new(0, 127, 128)));
    assert_eq!(b.get(3, 1), Ok(Pixel::new(191, 127, 128)));
    assert_eq!(b.pixels().len(), 8);
}

#[test]
fn gradient_refuses_zero_dimensions() {
    assert_eq!(PixelBuffer::gradient(0, 3).err(), Some(CanvasError::InvalidDimension));
    assert_eq!(PixelBuffer::gradient(3, 0).err(), Some(CanvasError::InvalidDimension));
}

#[test]
fn load_rgb_reads_three_bytes_per_pixel() {
    let mut b = PixelBuffer::create(2, 2, grey(0)).unwrap();
    let channels: Vec<u8> = vec![1, 2, 3, 4, 5, 6, 7, 8, 9, 10, 11, 12];
    assert_eq!(b.load_rgb(&channels), Ok(()));
    assert_eq!(b.get(0, 0), Ok(Pixel::new(1, 2, 3)));
    assert_eq!(b.get(1, 0), Ok(Pixel::new(4, 5, 6)));
    assert_eq!(b.get(0, 1), Ok(Pixel::new(7, 8, 9)));
    assert_eq!(b.get(1, 1), Ok(Pixel::new(10, 11, 12)));
    assert_eq!(
        b.to_rgba_bytes(),
        vec![1, 2, 3, 255, 4, 5, 6, 255, 7, 8, 9, 255, 10, 11, 12, 255]
    );
}

#[test]
fn load_rgb_refuses_a_wrong_byte_count() {
    let mut b = PixelBuffer::create(2, 2, grey(9)).unwrap();
    assert_eq!(b.load_rgb(&vec![0; 11]), Err(CanvasError::InvalidDimension));
    assert_eq!(b.load_rgb(&vec![0; 13]), Err(CanvasError::InvalidDimension));
    assert_eq!(b.load_rgb(&vec![0; 9]), Err(CanvasError::InvalidDimension));
    assert_eq!(b.load_rgb(&Vec::new()), Err(CanvasError::InvalidDimension));
    assert!(b.pixels().iter().all(|p| *p == grey(9)));
    assert_eq!(b.load_rgb(&vec![0; 12]), Ok(()));
    assert!(b.pixels().iter().all(|p| *p == grey(0)));
}
