//! A texture's image and the settings that the driver is given for it.

use vstd::prelude::*;

verus! {

/// How a texture is sampled between its texels.
#[derive(Clone, Copy, Debug, PartialEq, Eq, Structural)]
pub enum Filtering {
    Linear,
    Nearest,
}

/// How a texture goes on beyond its edges.
#[derive(Clone, Copy, Debug, PartialEq, Eq, Structural)]
pub enum Wrapping {
    Repeat,
    Mirrored,
    ClampToEdge,
    ClampToBorder,
}

/// A setting of a texture that the driver takes a value for.
#[derive(Clone, Copy, Debug, PartialEq, Eq, Structural)]
pub enum TextureParameter {
    WrapS,
    WrapT,
    MinFilter,
    MagFilter,
}

/// A setting and the value to give it.
#[derive(Clone, Copy, Debug, PartialEq, Eq, Structural)]
pub struct TextureSetting {
    pub parameter: TextureParameter,
    pub value: i32,
}

/// The number by which the driver knows a way of filtering.
pub open spec fn filtering_value(filtering: Filtering) -> i32 {
    match filtering {
        Filtering::Linear => 0x2601,
        Filtering::Nearest => 0x2600,
    }
}

/// The number by which the driver knows a way of wrapping.
pub open spec fn wrapping_value(wrapping: Wrapping) -> i32 {
    match wrapping {
        Wrapping::Repeat => 0x2901,
        Wrapping::Mirrored => 0x8370,
        Wrapping::ClampToEdge => 0x812F,
        Wrapping::ClampToBorder => 0x812D,
    }
}

impl Filtering {
    /// The number by which the driver knows this way of filtering.
    pub fn value(self) -> (value: i32)
        ensures
            value == filtering_value(self),
    {
        match self {
            Filtering::Linear => 0x2601,
            Filtering::Nearest => 0x2600,
        }
    }
}

impl Wrapping {
    /// The number by which the driver knows this way of wrapping.
    pub fn value(self) -> (value: i32)
        ensures
            value == wrapping_value(self),
    {
        match self {
            Wrapping::Repeat => 0x2901,
            Wrapping::Mirrored => 0x8370,
            Wrapping::ClampToEdge => 0x812F,
            Wrapping::ClampToBorder => 0x812D,
        }
    }
}

/// A texture object of the driver with the image that goes into it.
#[derive(Clone, Debug)]
pub struct Texture {
    id: u32,
    width: u32,
    height: u32,
    data: Vec<u8>,
}

/// What a texture holds: the model that the contracts speak of.
pub struct TextureView {
    pub id: u32,
    pub width: u32,
    pub height: u32,
    pub data: Seq<u8>,
}

impl View for Texture {
    type V = TextureView;

    closed spec fn view(&self) -> TextureView {
        TextureView { id: self.id, width: self.width, height: self.height, data: self.data@ }
    }
}

impl Texture {
    /// A texture for the texture object `id` of the driver, with an image of
    /// the given size and bytes.
    #[must_use]
    pub fn new(id: u32, width: u32, height: u32, data: Vec<u8>) -> (texture: Self)
        ensures
            texture@ == (TextureView { id, width, height, data: data@ }),
    {
        Texture { id, width, height, data }
    }

    /// The texture object of the driver.
    pub fn id(&self) -> (id: u32)
        ensures
            id == self@.id,
    {
        self.id
    }

    /// The bytes of the image.
    pub fn data(&self) -> (data: &Vec<u8>)
        ensures
            data@ == self@.data,
    {
        &self.data
    }

    /// The settings that make the texture filter in the given way, when it is
    /// shown smaller and when it is shown larger.
    pub fn set_filtering(&self, filtering: Filtering) -> (settings: [TextureSetting; 2])
        ensures
            settings@ == seq![
                TextureSetting {
                    parameter: TextureParameter::MinFilter,
                    value: filtering_value(filtering),
                },
                TextureSetting {
                    parameter: TextureParameter::MagFilter,
                    value: filtering_value(filtering),
                },
            ],
    {
        let value: i32 = filtering.value();
        let settings: [TextureSetting; 2] = [
            TextureSetting { parameter: TextureParameter::MinFilter, value },
            TextureSetting { parameter: TextureParameter::MagFilter, value },
        ];
        assert(settings@ =~= seq![
            TextureSetting { parameter: TextureParameter::MinFilter, value },
            TextureSetting { parameter: TextureParameter::MagFilter, value },
        ]);
        settings
    }

    /// The settings that make the texture wrap in the given way, across and
    /// upwards.
    pub fn set_wrapping(&self, wrapping: Wrapping) -> (settings: [TextureSetting; 2])
        ensures
            settings@ == seq![
                TextureSetting { parameter: TextureParameter::WrapS, value: wrapping_value(wrapping) },
                TextureSetting { parameter: TextureParameter::WrapT, value: wrapping_value(wrapping) },
            ],
    {
        let value: i32 = wrapping.value();
        let settings: [TextureSetting; 2] = [
            TextureSetting { parameter: TextureParameter::WrapS, value },
            TextureSetting { parameter: TextureParameter::WrapT, value },
        ];
        assert(settings@ =~= seq![
            TextureSetting { parameter: TextureParameter::WrapS, value },
            TextureSetting { parameter: TextureParameter::WrapT, value },
        ]);
        settings
    }

    /// The settings of a texture that nothing else was asked of: it repeats
    /// beyond its edges and filters linearly.
    pub fn set_default(&mut self) -> (settings: [TextureSetting; 4])
        ensures
            final(self)@ == old(self)@,
            settings@ == seq![
                TextureSetting {
                    parameter: TextureParameter::WrapS,
                    value: wrapping_value(Wrapping::Repeat),
                },
                TextureSetting {
                    parameter: TextureParameter::WrapT,
                    value: wrapping_value(Wrapping::Repeat),
                },
                TextureSetting {
                    parameter: TextureParameter::MinFilter,
                    value: filtering_value(Filtering::Linear),
                },
                TextureSetting {
                    parameter: TextureParameter::MagFilter,
                    value: filtering_value(Filtering::Linear),
                },
            ],
    {
        let repeat: i32 = Wrapping::Repeat.value();
        let linear: i32 = Filtering::Linear.value();
        let settings: [TextureSetting; 4] = [
            TextureSetting { parameter: TextureParameter::WrapS, value: repeat },
            TextureSetting { parameter: TextureParameter::WrapT, value: repeat },
            TextureSetting { parameter: TextureParameter::MinFilter, value: linear },
            TextureSetting { parameter: TextureParameter::MagFilter, value: linear },
        ];
        assert(settings@ =~= seq![
            TextureSetting { parameter: TextureParameter::WrapS, value: repeat },
            TextureSetting { parameter: TextureParameter::WrapT, value: repeat },
            TextureSetting { parameter: TextureParameter::MinFilter, value: linear },
            TextureSetting { parameter: TextureParameter::MagFilter, value: linear },
        ]);
        settings
    }

    /// The width and the height of the image as the driver takes them, or
    /// nothing where one of them is beyond the driver's range of sizes.
    pub fn generate_mipmap(&self) -> (size: Option<(i32, i32)>)
        ensures
            size is Some <==> self@.width <= i32::MAX && self@.height <= i32::MAX,
            size matches Some(s) ==> s.0 == self@.width && s.1 == self@.height,
    {
        if self.width <= 0x7FFF_FFFF && self.height <= 0x7FFF_FFFF {
            Some((self.width as i32, self.height as i32))
        } else {
            None
        }
    }
}

} // verus!
