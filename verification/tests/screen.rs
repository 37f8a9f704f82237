use n64_systemtest::graphics::color::{Color, RGBA5551};
use n64_systemtest::graphics::framebuffer_console::{FramebufferConsole, MAX_CHARS};
use n64_systemtest::graphics::framebuffer_images::FramebufferImages;
use n64_systemtest::graphics::image::Image;
use n64_systemtest::graphics::vi::{Video, HEIGHT, TV_TYPE_MPAL, TV_TYPE_NTSC, TV_TYPE_PAL, WIDTH};
use n64_systemtest::register::RegisterWrite;

fn store(address: u32, value: u32) -> RegisterWrite {
    RegisterWrite { address, value }
}

fn first_pixel(image: &mut Option<Image<RGBA5551>>) -> u16 {
    image.as_mut().unwrap().pixels_mut()[0].raw_value()
}

#[test]
fn console_prepend_and_append() {
    let mut console = FramebufferConsole::new();
    assert_eq!(console.contents(), "");
    console.append("world");
    console.prepend("hello ");
    console.append("!");
    assert_eq!(console.contents(), "hello world!");
    assert!(!console.is_full());
}

#[test]
fn console_stops_appending_when_full() {
    let mut console = FramebufferConsole::new();
    let block = "x".repeat(MAX_CHARS);
    console.append(&block);
    assert!(!console.is_full());
    console.append("y");
    assert!(console.is_full());
    assert_eq!(console.contents().len(), MAX_CHARS + 1);
    console.append("z");
    assert_eq!(console.contents().len(), MAX_CHARS + 1);
    console.prepend("p");
    assert_eq!(console.contents().len(), MAX_CHARS + 2);
    assert!(console.contents().starts_with("px"));
    assert!(console.is_full());
}

#[test]
fn framebuffers_swap() {
    let mut images: FramebufferImages<RGBA5551> = FramebufferImages::new();
    assert!(images.buffer1_is_front());
    assert!(images.frontbuffer().is_none());
    images.use_existing_buffers(16, 1, vec![RGBA5551::RED(); 16], vec![RGBA5551::BLUE(); 16]);
    assert!(images.frontbuffer().is_some() && images.backbuffer().is_some());
    assert_eq!(first_pixel(images.frontbuffer_mut()), 0xF800);
    assert_eq!(first_pixel(images.backbuffer_mut()), 0x003E);
    images.swap_buffers();
    assert!(!images.buffer1_is_front());
    assert_eq!(first_pixel(images.frontbuffer_mut()), 0x003E);
    assert_eq!(first_pixel(images.backbuffer_mut()), 0xF800);
    images.backbuffer_mut().as_mut().unwrap().set_pixel(0, 0, RGBA5551::GREEN());
    assert_eq!(first_pixel(images.backbuffer_mut()), 0x07C0);
    images.swap_buffers();
    assert_eq!(first_pixel(images.frontbuffer_mut()), 0x07C0);
    assert_eq!(images.frontbuffer().as_ref().unwrap().padded_width(), 8);
}

#[test]
fn vi_init_for_each_tv_type() {
    let video = Video::new();
    let pal = video.init(TV_TYPE_PAL);
    assert_eq!(pal.len(), 11);
    assert_eq!(pal[0], store(0xA440_0000, 12878));
    assert_eq!(pal[1], store(0xA440_000C, 2));
    assert_eq!(pal[2], store(0xA440_0014, 0x0404_233A));
    assert_eq!(pal[10], store(0xA440_0034, 853));
    let mpal = video.init(TV_TYPE_MPAL);
    assert_eq!(mpal[4], store(0xA440_001C, 0x0000_0C10));
    let ntsc = video.init(TV_TYPE_NTSC);
    assert_eq!(ntsc[7], store(0xA440_0028, 0x0025_01FF));
    assert_eq!(video.init(7), ntsc);
}

#[test]
fn vi_framebuffers() {
    let mut video = Video::new();
    let pixels = (WIDTH * HEIGHT) as usize;
    let hwidth = video.alloc_framebuffer(vec![RGBA5551::BLACK(); pixels], vec![RGBA5551::WHITE(); pixels]);
    assert_eq!(hwidth, store(0xA440_0008, 320));
    assert_eq!(first_pixel(video.framebuffers_mut().frontbuffer_mut()), 0);
    video.swap_buffers();
    assert!(!video.framebuffers().buffer1_is_front());
    assert_eq!(first_pixel(video.framebuffers_mut().frontbuffer_mut()), 0xFFFE);
    assert_eq!(video.activate_frontbuffer(0x8012_3400), store(0xA440_0004, 0xA012_3400));
    assert_eq!(video.framebuffers().frontbuffer().as_ref().unwrap().height(), 240);
}
